//! Task lifecycle, audit trail and countdown timer core of a personal task
//! tracker.
//!
//! The library decides and the surrounding application stores and displays:
//! each command is planned here (the rows to insert, the update statement
//! and its parameters, the audit entries to append) and carried out against
//! the store by the caller. The countdown is a plain owned value that the
//! caller keeps behind a lock and ticks once per second.

pub mod audit;
pub mod lifecycle;
pub mod listing;
pub mod migration;
pub mod model;
pub mod patch;
pub mod schema;
pub mod session;
pub mod sidebar;
pub mod store;
pub mod text;
pub mod timer;

pub use audit::{ActionKind, AuditEntry};
pub use lifecycle::{plan_create, plan_tag, plan_update, CreatePlan, NewTask, TagRow, UpdatePlan};
pub use listing::{found_task, order_for_listing, select_for_listing};
pub use migration::{plan_migration, MigrationPlan, SeedSetting};
pub use model::{
    AppConfig, CreateTaskInput, DbStatus, ExtendTimeInput, Setting, SidebarCounts, Task,
    TaskActionHistory, TaskMemo, TaskNote, TaskPriority, TaskRecord, TaskRunHistory, TaskStatus,
    TaskTimeExtension, UpdateTaskInput,
};
pub use patch::{Assignment, SqlValue, TaskColumn};
pub use schema::SCHEMA_SQL;
pub use session::{
    plan_memo, plan_note, plan_note_update, plan_run_start, plan_time_extension, ExtensionRow,
    MemoRow, NoteRow, NoteUpdatePlan, RunStart,
};
pub use sidebar::{count_sidebar, SidebarEntry};
pub use store::{plan_table_query, DbError, DbState, TableQuery};
pub use timer::{format_tray_title, StopOutcome, TickOutcome, TimerState};
