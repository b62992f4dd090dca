//! The session recorder and the child rows of a task: run sessions, time
//! extensions, memos and notes.

use vstd::prelude::*;
use vstd::string::*;
use crate::lifecycle::values_view;
use crate::model::ExtendTimeInput;
use crate::patch::{update_sql, update_statement, SqlValue, StoredValue};
use crate::text::{new_record_id, opt_text};

verus! {

/// The end type of a session that is still open.
pub open spec fn open_run_marker() -> Seq<char> {
    "running"@
}

/// A session row to insert; the store stamps its start time.
#[derive(Debug, Clone)]
pub struct RunStart {
    pub id: String,
    pub task_id: String,
    pub duration: i64,
    pub end_type: String,
}

/// Plans the start of a session: an open row under a fresh id, with no
/// duration yet and end type `running`. The task's `last_run_at` is stamped
/// with it.
pub fn plan_run_start(task_id: &str) -> (r: RunStart)
    ensures
        r.id@.len() == 36,
        r.task_id@ == task_id@,
        r.duration == 0,
        r.end_type@ == open_run_marker(),
{
    RunStart {
        id: new_record_id(),
        task_id: String::from_str(task_id),
        duration: 0,
        end_type: String::from_str("running"),
    }
}

/// A time-extension row to insert; the store stamps its creation time.
#[derive(Debug, Clone)]
pub struct ExtensionRow {
    pub id: String,
    pub task_id: String,
    pub added_minutes: i64,
    pub previous_duration: i64,
    pub new_duration: i64,
    pub reason: Option<String>,
}

/// Plans a time extension under a fresh id, as given; the task's expected
/// duration becomes `new_duration` with it.
pub fn plan_time_extension(input: ExtendTimeInput) -> (r: ExtensionRow)
    ensures
        r.id@.len() == 36,
        r.task_id@ == input.task_id@,
        r.added_minutes == input.added_minutes,
        r.previous_duration == input.previous_duration,
        r.new_duration == input.new_duration,
        opt_text(r.reason) == opt_text(input.reason),
{
    ExtensionRow {
        id: new_record_id(),
        task_id: input.task_id,
        added_minutes: input.added_minutes,
        previous_duration: input.previous_duration,
        new_duration: input.new_duration,
        reason: input.reason,
    }
}

/// A memo row to insert; the store stamps its creation time.
#[derive(Debug, Clone)]
pub struct MemoRow {
    pub id: String,
    pub task_id: String,
    pub content: String,
}

/// Plans a memo under a fresh id.
pub fn plan_memo(task_id: &str, content: String) -> (r: MemoRow)
    ensures
        r.id@.len() == 36,
        r.task_id@ == task_id@,
        r.content@ == content@,
{
    MemoRow { id: new_record_id(), task_id: String::from_str(task_id), content }
}

/// A note row to insert; the store stamps its times.
#[derive(Debug, Clone)]
pub struct NoteRow {
    pub id: String,
    pub task_id: String,
    pub title: String,
    pub content: String,
}

/// Plans a note under a fresh id.
pub fn plan_note(task_id: &str, title: String, content: String) -> (r: NoteRow)
    ensures
        r.id@.len() == 36,
        r.task_id@ == task_id@,
        r.title@ == title@,
        r.content@ == content@,
{
    NoteRow { id: new_record_id(), task_id: String::from_str(task_id), title, content }
}

/// The columns a note change writes: the title and the content, each where
/// the change has it.
pub open spec fn note_columns(title: Option<String>, content: Option<String>) -> Seq<Seq<char>> {
    (if title is Some {
        seq!["title"@]
    } else {
        seq![]
    }) + (if content is Some {
        seq!["content"@]
    } else {
        seq![]
    })
}

/// The values a note change writes, in the order of `note_columns`.
pub open spec fn note_values(title: Option<String>, content: Option<String>) -> Seq<StoredValue> {
    (match title {
        Some(t) => seq![StoredValue::Text(t@)],
        None => seq![],
    }) + (match content {
        Some(c) => seq![StoredValue::Text(c@)],
        None => seq![],
    })
}

/// A note update: the statement and its parameters (the values, then the
/// note id).
pub struct NoteUpdatePlan {
    pub sql: String,
    pub params: Vec<SqlValue>,
}

/// Plans a note change: stamps the note's `updated_at` and writes the title
/// and the content where the change has them, nothing else.
pub fn plan_note_update(note_id: &str, title: Option<String>, content: Option<String>) -> (r:
    NoteUpdatePlan)
    ensures
        r.sql@ == update_sql("tbl_task_note"@, note_columns(title, content)),
        values_view(r.params@) == note_values(title, content).push(StoredValue::Text(note_id@)),
{
    let ghost t0 = title;
    let ghost c0 = content;
    let mut cols: Vec<&str> = Vec::new();
    let mut params: Vec<SqlValue> = Vec::new();
    if let Some(t) = title {
        cols.push("title");
        params.push(SqlValue::Text(t));
    }
    if let Some(c) = content {
        cols.push("content");
        params.push(SqlValue::Text(c));
    }
    params.push(SqlValue::Text(String::from_str(note_id)));
    proof {
        assert(cols@.map_values(|c: &str| c@) =~= note_columns(t0, c0));
        assert(values_view(params@) =~= note_values(t0, c0).push(StoredValue::Text(note_id@)));
    }
    let sql = update_statement("tbl_task_note", &cols);
    NoteUpdatePlan { sql, params }
}

} // verus!
