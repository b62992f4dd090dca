//! The records of the task tracker: tasks, their child rows, and the inputs
//! of the commands that create and change them.

use vstd::prelude::*;
use vstd::string::*;
use crate::text::{same_text, to_upper, upper_of};

verus! {

/// How urgent a task is.
#[derive(Debug, Clone, Copy, PartialEq, Eq, Structural)]
pub enum TaskPriority {
    Low,
    Medium,
    High,
}

/// The stored text of a priority.
pub open spec fn priority_text(p: TaskPriority) -> Seq<char> {
    match p {
        TaskPriority::Low => "LOW"@,
        TaskPriority::Medium => "MEDIUM"@,
        TaskPriority::High => "HIGH"@,
    }
}

/// The priority an upper-case text names; anything unknown is `Medium`.
pub open spec fn priority_from_upper(t: Seq<char>) -> TaskPriority {
    if t == "LOW"@ {
        TaskPriority::Low
    } else if t == "HIGH"@ {
        TaskPriority::High
    } else {
        TaskPriority::Medium
    }
}

impl Default for TaskPriority {
    fn default() -> (r: Self)
        ensures
            r == TaskPriority::Medium,
    {
        TaskPriority::Medium
    }
}

impl TaskPriority {
    /// The stored text: `LOW`, `MEDIUM` or `HIGH`.
    pub fn to_string(&self) -> (r: String)
        ensures
            r@ == priority_text(*self),
    {
        match self {
            TaskPriority::Low => String::from_str("LOW"),
            TaskPriority::Medium => String::from_str("MEDIUM"),
            TaskPriority::High => String::from_str("HIGH"),
        }
    }

    /// Reads a priority from text that is already upper case.
    pub fn from_upper(t: &str) -> (r: Self)
        ensures
            r == priority_from_upper(t@),
    {
        if same_text(t, "LOW") {
            TaskPriority::Low
        } else if same_text(t, "HIGH") {
            TaskPriority::High
        } else {
            TaskPriority::Medium
        }
    }
}

impl<'a> From<&'a str> for TaskPriority {
    /// Reads a priority whatever the case of its letters; anything unknown is
    /// `Medium`.
    fn from(s: &'a str) -> (r: Self)
        ensures
            r == priority_from_upper(upper_of(s@)),
    {
        let u = to_upper(s);
        TaskPriority::from_upper(u.as_str())
    }
}

impl<'a> vstd::std_specs::convert::FromSpecImpl<&'a str> for TaskPriority {
    open spec fn obeys_from_spec() -> bool {
        true
    }

    open spec fn from_spec(s: &'a str) -> Self {
        priority_from_upper(upper_of(s@))
    }
}

/// Where a task stands in its lifecycle.
#[derive(Debug, Clone, Copy, PartialEq, Eq, Structural)]
pub enum TaskStatus {
    Inbox,
    InProgress,
    Paused,
    Completed,
    Archived,
}

/// The stored text of a status.
pub open spec fn status_text(s: TaskStatus) -> Seq<char> {
    match s {
        TaskStatus::Inbox => "INBOX"@,
        TaskStatus::InProgress => "IN_PROGRESS"@,
        TaskStatus::Paused => "PAUSED"@,
        TaskStatus::Completed => "COMPLETED"@,
        TaskStatus::Archived => "ARCHIVED"@,
    }
}

/// The status an upper-case text names; anything unknown is `Inbox`.
pub open spec fn status_from_upper(t: Seq<char>) -> TaskStatus {
    if t == "IN_PROGRESS"@ {
        TaskStatus::InProgress
    } else if t == "PAUSED"@ {
        TaskStatus::Paused
    } else if t == "COMPLETED"@ {
        TaskStatus::Completed
    } else if t == "ARCHIVED"@ {
        TaskStatus::Archived
    } else {
        TaskStatus::Inbox
    }
}

impl Default for TaskStatus {
    fn default() -> (r: Self)
        ensures
            r == TaskStatus::Inbox,
    {
        TaskStatus::Inbox
    }
}

impl TaskStatus {
    /// The stored text: `INBOX`, `IN_PROGRESS`, `PAUSED`, `COMPLETED` or
    /// `ARCHIVED`.
    pub fn to_string(&self) -> (r: String)
        ensures
            r@ == status_text(*self),
    {
        match self {
            TaskStatus::Inbox => String::from_str("INBOX"),
            TaskStatus::InProgress => String::from_str("IN_PROGRESS"),
            TaskStatus::Paused => String::from_str("PAUSED"),
            TaskStatus::Completed => String::from_str("COMPLETED"),
            TaskStatus::Archived => String::from_str("ARCHIVED"),
        }
    }

    /// Reads a status from text that is already upper case.
    pub fn from_upper(t: &str) -> (r: Self)
        ensures
            r == status_from_upper(t@),
    {
        if same_text(t, "IN_PROGRESS") {
            TaskStatus::InProgress
        } else if same_text(t, "PAUSED") {
            TaskStatus::Paused
        } else if same_text(t, "COMPLETED") {
            TaskStatus::Completed
        } else if same_text(t, "ARCHIVED") {
            TaskStatus::Archived
        } else {
            TaskStatus::Inbox
        }
    }
}

impl<'a> From<&'a str> for TaskStatus {
    /// Reads a status whatever the case of its letters; anything unknown is
    /// `Inbox`.
    fn from(s: &'a str) -> (r: Self)
        ensures
            r == status_from_upper(upper_of(s@)),
    {
        let u = to_upper(s);
        TaskStatus::from_upper(u.as_str())
    }
}

impl<'a> vstd::std_specs::convert::FromSpecImpl<&'a str> for TaskStatus {
    open spec fn obeys_from_spec() -> bool {
        true
    }

    open spec fn from_spec(s: &'a str) -> Self {
        status_from_upper(upper_of(s@))
    }
}

/// Where the datastore lives and what it holds, as shown before one is opened.
#[derive(Debug, Clone)]
pub struct DbStatus {
    pub configured: bool,
    pub path: String,
    pub exists: bool,
    pub size_bytes: Option<u64>,
    pub tables: Vec<String>,
}

/// A short note attached to a task; never changed once written.
#[derive(Debug, Clone)]
pub struct TaskMemo {
    pub id: String,
    pub task_id: String,
    pub content: String,
    pub created_at: String,
}

/// A titled, editable text attached to a task.
#[derive(Debug, Clone)]
pub struct TaskNote {
    pub id: String,
    pub task_id: String,
    pub title: String,
    pub content: String,
    pub created_at: String,
    pub updated_at: String,
}

/// One timed session against a task; open while `ended_at` is absent.
#[derive(Debug, Clone)]
pub struct TaskRunHistory {
    pub id: String,
    pub task_id: String,
    pub started_at: String,
    pub ended_at: Option<String>,
    pub duration: i64,
    pub end_type: String,
}

/// One explicit increase of a task's expected duration.
#[derive(Debug, Clone)]
pub struct TaskTimeExtension {
    pub id: String,
    pub task_id: String,
    pub added_minutes: i64,
    pub previous_duration: i64,
    pub new_duration: i64,
    pub reason: Option<String>,
    pub created_at: String,
}

/// One entry of a task's audit trail.
#[derive(Debug, Clone)]
pub struct TaskActionHistory {
    pub id: String,
    pub task_id: String,
    pub action_type: String,
    pub previous_status: Option<String>,
    pub new_status: Option<String>,
    pub metadata: Option<String>,
    pub created_at: String,
}

/// A task with all of its child collections.
#[derive(Debug, Clone)]
pub struct Task {
    pub id: String,
    pub title: String,
    pub description: Option<String>,
    pub url: Option<String>,
    pub slack_message_id: Option<String>,
    pub priority: TaskPriority,
    pub status: TaskStatus,
    pub total_time_spent: i64,
    pub expected_duration: Option<i64>,
    /// Remaining seconds saved when the task was paused.
    pub remaining_time_seconds: Option<i64>,
    pub target_date: Option<String>,
    pub is_important: bool,
    pub created_at: String,
    pub updated_at: String,
    pub completed_at: Option<String>,
    pub last_paused_at: Option<String>,
    pub last_run_at: Option<String>,
    pub tags: Vec<String>,
    pub memos: Vec<TaskMemo>,
    pub notes: Vec<TaskNote>,
    pub run_history: Vec<TaskRunHistory>,
    pub time_extensions: Vec<TaskTimeExtension>,
    pub action_history: Vec<TaskActionHistory>,
}

/// What a new task is made from.
#[derive(Debug, Clone)]
pub struct CreateTaskInput {
    pub title: String,
    pub description: Option<String>,
    pub url: Option<String>,
    pub priority: Option<TaskPriority>,
    pub expected_duration: Option<i64>,
    pub target_date: Option<String>,
    pub tags: Option<Vec<String>>,
}

/// A sparse change to a task. An absent field (`None`) is left as stored. For
/// a nullable column, `Some(None)` clears it and `Some(Some(v))` sets it.
#[derive(Debug, Clone)]
pub struct UpdateTaskInput {
    pub id: String,
    pub title: Option<String>,
    pub description: Option<Option<String>>,
    pub url: Option<Option<String>>,
    pub priority: Option<TaskPriority>,
    pub status: Option<TaskStatus>,
    pub total_time_spent: Option<i64>,
    pub expected_duration: Option<Option<i64>>,
    /// Remaining seconds saved when the task is paused.
    pub remaining_time_seconds: Option<Option<i64>>,
    pub target_date: Option<Option<String>>,
    pub is_important: Option<bool>,
    pub completed_at: Option<Option<String>>,
    pub last_paused_at: Option<Option<String>>,
    pub last_run_at: Option<Option<String>>,
}

/// An explicit increase of a task's expected duration.
#[derive(Debug, Clone)]
pub struct ExtendTimeInput {
    pub task_id: String,
    pub added_minutes: i64,
    pub previous_duration: i64,
    pub new_duration: i64,
    pub reason: Option<String>,
}

/// One configuration key and its value.
#[derive(Debug, Clone)]
pub struct Setting {
    pub id: String,
    pub key: String,
    pub value: Option<String>,
    pub updated_at: String,
}

/// The application's own configuration file.
#[derive(Debug, Clone)]
pub struct AppConfig {
    pub db_path: Option<String>,
    pub theme: Option<String>,
    pub language: Option<String>,
}

impl Default for AppConfig {
    fn default() -> (r: Self)
        ensures
            r.db_path is None,
            r.theme is None,
            r.language is None,
    {
        AppConfig { db_path: None, theme: None, language: None }
    }
}

/// Task counts per sidebar entry.
#[derive(Debug, Clone, Copy)]
pub struct SidebarCounts {
    pub inbox: i64,
    pub completed: i64,
    pub starred: i64,
    pub today: i64,
    pub tomorrow: i64,
    pub overdue: i64,
    pub archive: i64,
}

/// The columns of a stored task row, as the store hands them out.
#[derive(Debug, Clone)]
pub struct TaskRecord {
    pub id: String,
    pub title: String,
    pub description: Option<String>,
    pub url: Option<String>,
    pub slack_message_id: Option<String>,
    pub priority: String,
    pub status: String,
    pub total_time_spent: i64,
    pub expected_duration: Option<i64>,
    pub remaining_time_seconds: Option<i64>,
    pub target_date: Option<String>,
    pub is_important: i64,
    pub created_at: String,
    pub updated_at: String,
    pub completed_at: Option<String>,
    pub last_paused_at: Option<String>,
    pub last_run_at: Option<String>,
}

impl Task {
    /// A task read from its stored row, before its child collections are
    /// loaded: priority and status are read whatever their case (unknown
    /// texts give `MEDIUM` and `INBOX`), and any non-zero importance flag is
    /// set.
    pub fn from_record(r: TaskRecord) -> (t: Task)
        ensures
            t.id == r.id,
            t.title == r.title,
            t.description == r.description,
            t.url == r.url,
            t.slack_message_id == r.slack_message_id,
            t.priority == priority_from_upper(upper_of(r.priority@)),
            t.status == status_from_upper(upper_of(r.status@)),
            t.total_time_spent == r.total_time_spent,
            t.expected_duration == r.expected_duration,
            t.remaining_time_seconds == r.remaining_time_seconds,
            t.target_date == r.target_date,
            t.is_important == (r.is_important != 0),
            t.created_at == r.created_at,
            t.updated_at == r.updated_at,
            t.completed_at == r.completed_at,
            t.last_paused_at == r.last_paused_at,
            t.last_run_at == r.last_run_at,
            t.tags@.len() == 0,
            t.memos@.len() == 0,
            t.notes@.len() == 0,
            t.run_history@.len() == 0,
            t.time_extensions@.len() == 0,
            t.action_history@.len() == 0,
    {
        let priority = TaskPriority::from(r.priority.as_str());
        let status = TaskStatus::from(r.status.as_str());
        Task {
            id: r.id,
            title: r.title,
            description: r.description,
            url: r.url,
            slack_message_id: r.slack_message_id,
            priority,
            status,
            total_time_spent: r.total_time_spent,
            expected_duration: r.expected_duration,
            remaining_time_seconds: r.remaining_time_seconds,
            target_date: r.target_date,
            is_important: r.is_important != 0,
            created_at: r.created_at,
            updated_at: r.updated_at,
            completed_at: r.completed_at,
            last_paused_at: r.last_paused_at,
            last_run_at: r.last_run_at,
            tags: Vec::new(),
            memos: Vec::new(),
            notes: Vec::new(),
            run_history: Vec::new(),
            time_extensions: Vec::new(),
            action_history: Vec::new(),
        }
    }
}

} // verus!
