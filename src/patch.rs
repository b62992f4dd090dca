//! The partial-update patcher: turns a sparse change of a task into the list
//! of column assignments that one `UPDATE` applies, touching nothing else.

use vstd::prelude::*;
use vstd::string::*;
use crate::model::{priority_text, status_text, TaskPriority, TaskStatus, UpdateTaskInput};
use crate::text::{decimal, decimal_text, joined};

verus! {

/// The columns of a stored task that a change may write.
#[derive(Debug, Clone, Copy, PartialEq, Eq, Structural)]
pub enum TaskColumn {
    Title,
    Description,
    Url,
    Priority,
    Status,
    TotalTimeSpent,
    ExpectedDuration,
    RemainingTimeSeconds,
    TargetDate,
    IsImportant,
    CompletedAt,
    LastPausedAt,
    LastRunAt,
    UpdatedAt,
}

/// The stored name of a column.
pub open spec fn column_name(c: TaskColumn) -> Seq<char> {
    match c {
        TaskColumn::Title => "title"@,
        TaskColumn::Description => "description"@,
        TaskColumn::Url => "url"@,
        TaskColumn::Priority => "priority"@,
        TaskColumn::Status => "status"@,
        TaskColumn::TotalTimeSpent => "total_time_spent"@,
        TaskColumn::ExpectedDuration => "expected_duration"@,
        TaskColumn::RemainingTimeSeconds => "remaining_time_seconds"@,
        TaskColumn::TargetDate => "target_date"@,
        TaskColumn::IsImportant => "is_important"@,
        TaskColumn::CompletedAt => "completed_at"@,
        TaskColumn::LastPausedAt => "last_paused_at"@,
        TaskColumn::LastRunAt => "last_run_at"@,
        TaskColumn::UpdatedAt => "updated_at"@,
    }
}

impl TaskColumn {
    /// The stored name of the column.
    pub fn name(&self) -> (r: &'static str)
        ensures
            r@ == column_name(*self),
    {
        match self {
            TaskColumn::Title => "title",
            TaskColumn::Description => "description",
            TaskColumn::Url => "url",
            TaskColumn::Priority => "priority",
            TaskColumn::Status => "status",
            TaskColumn::TotalTimeSpent => "total_time_spent",
            TaskColumn::ExpectedDuration => "expected_duration",
            TaskColumn::RemainingTimeSeconds => "remaining_time_seconds",
            TaskColumn::TargetDate => "target_date",
            TaskColumn::IsImportant => "is_important",
            TaskColumn::CompletedAt => "completed_at",
            TaskColumn::LastPausedAt => "last_paused_at",
            TaskColumn::LastRunAt => "last_run_at",
            TaskColumn::UpdatedAt => "updated_at",
        }
    }
}

/// A value as the store holds it.
#[derive(Debug, Clone)]
pub enum SqlValue {
    Null,
    Integer(i64),
    Text(String),
}

/// A stored value as the contracts see it.
pub enum StoredValue {
    Null,
    Integer(int),
    Text(Seq<char>),
}

impl View for SqlValue {
    type V = StoredValue;

    open spec fn view(&self) -> StoredValue {
        match self {
            SqlValue::Null => StoredValue::Null,
            SqlValue::Integer(i) => StoredValue::Integer(*i as int),
            SqlValue::Text(t) => StoredValue::Text(t@),
        }
    }
}

/// One `column = value` of an update.
#[derive(Debug, Clone)]
pub struct Assignment {
    pub column: TaskColumn,
    pub value: SqlValue,
}

/// The assignments as the contracts see them.
pub open spec fn assignments_view(a: Seq<Assignment>) -> Seq<(TaskColumn, StoredValue)> {
    a.map_values(|x: Assignment| (x.column, x.value@))
}

/// The assignment of a required text field, if the change has it.
pub open spec fn text_field(c: TaskColumn, v: Option<String>) -> Seq<(TaskColumn, StoredValue)> {
    match v {
        Some(t) => seq![(c, StoredValue::Text(t@))],
        None => seq![],
    }
}

/// The assignment of a nullable text field, if the change has it.
pub open spec fn nullable_text_field(c: TaskColumn, v: Option<Option<String>>) -> Seq<
    (TaskColumn, StoredValue),
> {
    match v {
        Some(Some(t)) => seq![(c, StoredValue::Text(t@))],
        Some(None) => seq![(c, StoredValue::Null)],
        None => seq![],
    }
}

/// The assignment of a required integer field, if the change has it.
pub open spec fn int_field(c: TaskColumn, v: Option<i64>) -> Seq<(TaskColumn, StoredValue)> {
    match v {
        Some(i) => seq![(c, StoredValue::Integer(i as int))],
        None => seq![],
    }
}

/// The assignment of a nullable integer field, if the change has it.
pub open spec fn nullable_int_field(c: TaskColumn, v: Option<Option<i64>>) -> Seq<
    (TaskColumn, StoredValue),
> {
    match v {
        Some(Some(i)) => seq![(c, StoredValue::Integer(i as int))],
        Some(None) => seq![(c, StoredValue::Null)],
        None => seq![],
    }
}

/// The assignment of the priority, as its stored text, if the change has it.
pub open spec fn priority_field(v: Option<TaskPriority>) -> Seq<(TaskColumn, StoredValue)> {
    match v {
        Some(x) => seq![(TaskColumn::Priority, StoredValue::Text(priority_text(x)))],
        None => seq![],
    }
}

/// The assignment of the status, as its stored text, if the change has it.
pub open spec fn status_field(v: Option<TaskStatus>) -> Seq<(TaskColumn, StoredValue)> {
    match v {
        Some(x) => seq![(TaskColumn::Status, StoredValue::Text(status_text(x)))],
        None => seq![],
    }
}

/// The assignment of a flag, stored as 1 or 0, if the change has it.
pub open spec fn flag_field(c: TaskColumn, v: Option<bool>) -> Seq<(TaskColumn, StoredValue)> {
    match v {
        Some(b) => seq![(c, StoredValue::Integer(if b { 1 } else { 0 }))],
        None => seq![],
    }
}

/// The assignments a change makes, in column order: every field the change
/// has, and no other.
#[verifier::opaque]
pub open spec fn patch_assignments(p: UpdateTaskInput) -> Seq<(TaskColumn, StoredValue)> {
    text_field(TaskColumn::Title, p.title)
        + nullable_text_field(TaskColumn::Description, p.description)
        + nullable_text_field(TaskColumn::Url, p.url)
        + priority_field(p.priority)
        + status_field(p.status)
        + int_field(TaskColumn::TotalTimeSpent, p.total_time_spent)
        + nullable_int_field(TaskColumn::ExpectedDuration, p.expected_duration)
        + nullable_int_field(TaskColumn::RemainingTimeSeconds, p.remaining_time_seconds)
        + nullable_text_field(TaskColumn::TargetDate, p.target_date)
        + flag_field(TaskColumn::IsImportant, p.is_important)
        + nullable_text_field(TaskColumn::CompletedAt, p.completed_at)
        + nullable_text_field(TaskColumn::LastPausedAt, p.last_paused_at)
        + nullable_text_field(TaskColumn::LastRunAt, p.last_run_at)
}

/// Whether a change has a value for a column.
pub open spec fn mentions(p: UpdateTaskInput, c: TaskColumn) -> bool {
    match c {
        TaskColumn::Title => p.title is Some,
        TaskColumn::Description => p.description is Some,
        TaskColumn::Url => p.url is Some,
        TaskColumn::Priority => p.priority is Some,
        TaskColumn::Status => p.status is Some,
        TaskColumn::TotalTimeSpent => p.total_time_spent is Some,
        TaskColumn::ExpectedDuration => p.expected_duration is Some,
        TaskColumn::RemainingTimeSeconds => p.remaining_time_seconds is Some,
        TaskColumn::TargetDate => p.target_date is Some,
        TaskColumn::IsImportant => p.is_important is Some,
        TaskColumn::CompletedAt => p.completed_at is Some,
        TaskColumn::LastPausedAt => p.last_paused_at is Some,
        TaskColumn::LastRunAt => p.last_run_at is Some,
        TaskColumn::UpdatedAt => false,
    }
}

fn push_one(out: &mut Vec<Assignment>, column: TaskColumn, value: SqlValue)
    ensures
        assignments_view(final(out)@) == assignments_view(old(out)@) + seq![(column, value@)],
{
    let ghost before = out@;
    out.push(Assignment { column, value });
    proof {
        assert(assignments_view(out@) =~= assignments_view(before) + seq![(column, value@)]);
    }
}

fn push_text(out: &mut Vec<Assignment>, c: TaskColumn, v: &Option<String>)
    ensures
        assignments_view(final(out)@) == assignments_view(old(out)@) + text_field(c, *v),
{
    if let Some(t) = v {
        push_one(out, c, SqlValue::Text(t.clone()));
    } else {
        assert(assignments_view(out@) =~= assignments_view(out@) + text_field(c, *v));
    }
}

fn push_nullable_text(out: &mut Vec<Assignment>, c: TaskColumn, v: &Option<Option<String>>)
    ensures
        assignments_view(final(out)@) == assignments_view(old(out)@) + nullable_text_field(c, *v),
{
    match v {
        Some(Some(t)) => push_one(out, c, SqlValue::Text(t.clone())),
        Some(None) => push_one(out, c, SqlValue::Null),
        None => {
            assert(assignments_view(out@) =~= assignments_view(out@) + nullable_text_field(c, *v));
        },
    }
}

fn push_int(out: &mut Vec<Assignment>, c: TaskColumn, v: Option<i64>)
    ensures
        assignments_view(final(out)@) == assignments_view(old(out)@) + int_field(c, v),
{
    match v {
        Some(i) => push_one(out, c, SqlValue::Integer(i)),
        None => {
            assert(assignments_view(out@) =~= assignments_view(out@) + int_field(c, v));
        },
    }
}

fn push_nullable_int(out: &mut Vec<Assignment>, c: TaskColumn, v: Option<Option<i64>>)
    ensures
        assignments_view(final(out)@) == assignments_view(old(out)@) + nullable_int_field(c, v),
{
    match v {
        Some(Some(i)) => push_one(out, c, SqlValue::Integer(i)),
        Some(None) => push_one(out, c, SqlValue::Null),
        None => {
            assert(assignments_view(out@) =~= assignments_view(out@) + nullable_int_field(c, v));
        },
    }
}

/// The assignments of a change, in column order: one for each field the
/// change has, none for the others.
pub fn build_assignments(p: &UpdateTaskInput) -> (r: Vec<Assignment>)
    ensures
        assignments_view(r@) == patch_assignments(*p),
{
    let mut out: Vec<Assignment> = Vec::new();
    assert(assignments_view(out@) =~= Seq::empty());
    push_text(&mut out, TaskColumn::Title, &p.title);
    push_nullable_text(&mut out, TaskColumn::Description, &p.description);
    push_nullable_text(&mut out, TaskColumn::Url, &p.url);
    let ghost a3 = assignments_view(out@);
    match p.priority {
        Some(v) => push_one(&mut out, TaskColumn::Priority, SqlValue::Text(v.to_string())),
        None => {},
    }
    let ghost a4 = assignments_view(out@);
    match p.status {
        Some(v) => push_one(&mut out, TaskColumn::Status, SqlValue::Text(v.to_string())),
        None => {},
    }
    let ghost a5 = assignments_view(out@);
    push_int(&mut out, TaskColumn::TotalTimeSpent, p.total_time_spent);
    push_nullable_int(&mut out, TaskColumn::ExpectedDuration, p.expected_duration);
    push_nullable_int(&mut out, TaskColumn::RemainingTimeSeconds, p.remaining_time_seconds);
    push_nullable_text(&mut out, TaskColumn::TargetDate, &p.target_date);
    let ghost a9 = assignments_view(out@);
    match p.is_important {
        Some(b) => push_one(&mut out, TaskColumn::IsImportant, SqlValue::Integer(if b { 1 } else { 0 })),
        None => {},
    }
    let ghost a10 = assignments_view(out@);
    push_nullable_text(&mut out, TaskColumn::CompletedAt, &p.completed_at);
    push_nullable_text(&mut out, TaskColumn::LastPausedAt, &p.last_paused_at);
    push_nullable_text(&mut out, TaskColumn::LastRunAt, &p.last_run_at);
    proof {
        reveal(patch_assignments);
        assert(a4 =~= a3 + priority_field(p.priority));
        assert(a5 =~= a4 + status_field(p.status));
        assert(a10 =~= a9 + flag_field(TaskColumn::IsImportant, p.is_important));
        assert(assignments_view(out@) =~= patch_assignments(*p));
    }
    out
}

/// A stored task row as the contracts see it: each column's value.
pub type StoredRow = Map<TaskColumn, StoredValue>;

/// The row after the assignments `a` have been applied one after another.
pub open spec fn stored_after(row: StoredRow, a: Seq<(TaskColumn, StoredValue)>) -> StoredRow
    decreases a.len(),
{
    if a.len() == 0 {
        row
    } else {
        stored_after(row, a.drop_last()).insert(a.last().0, a.last().1)
    }
}

/// The row after a change applied at the time `now`: the update time is
/// stamped, then each field the change has is written.
pub open spec fn patched(row: StoredRow, p: UpdateTaskInput, now: Seq<char>) -> StoredRow {
    stored_after(row.insert(TaskColumn::UpdatedAt, StoredValue::Text(now)), patch_assignments(p))
}

proof fn lemma_untouched_column(row: StoredRow, a: Seq<(TaskColumn, StoredValue)>, c: TaskColumn)
    requires
        forall|i: int| 0 <= i < a.len() ==> a[i].0 != c,
    ensures
        stored_after(row, a).contains_key(c) == row.contains_key(c),
        row.contains_key(c) ==> stored_after(row, a)[c] == row[c],
    decreases a.len(),
{
    if a.len() > 0 {
        assert forall|i: int| 0 <= i < a.drop_last().len() implies a.drop_last()[i].0 != c by {
            assert(a.drop_last()[i] == a[i]);
        }
        lemma_untouched_column(row, a.drop_last(), c);
    }
}

/// A change makes at most one assignment per field.
pub proof fn lemma_assignments_len(p: UpdateTaskInput)
    ensures
        patch_assignments(p).len() <= 13,
{
    reveal(patch_assignments);
}

/// Whether every assignment of `a` is to a column the change mentions.
pub open spec fn all_mentioned(p: UpdateTaskInput, a: Seq<(TaskColumn, StoredValue)>) -> bool {
    forall|i: int| 0 <= i < a.len() ==> #[trigger] mentions(p, a[i].0)
}

proof fn lemma_all_mentioned_concat(
    p: UpdateTaskInput,
    a: Seq<(TaskColumn, StoredValue)>,
    b: Seq<(TaskColumn, StoredValue)>,
)
    requires
        all_mentioned(p, a),
        all_mentioned(p, b),
    ensures
        all_mentioned(p, a + b),
{
    assert forall|i: int| 0 <= i < (a + b).len() implies #[trigger] mentions(p, (a + b)[i].0) by {
        if i < a.len() {
            assert((a + b)[i] == a[i]);
        } else {
            assert((a + b)[i] == b[i - a.len()]);
        }
    }
}

proof fn lemma_assignments_are_mentioned(p: UpdateTaskInput)
    ensures
        all_mentioned(p, patch_assignments(p)),
{
    reveal(patch_assignments);
    let s1 = text_field(TaskColumn::Title, p.title);
    let s2 = nullable_text_field(TaskColumn::Description, p.description);
    let s3 = nullable_text_field(TaskColumn::Url, p.url);
    let s4 = priority_field(p.priority);
    let s5 = status_field(p.status);
    let s6 = int_field(TaskColumn::TotalTimeSpent, p.total_time_spent);
    let s7 = nullable_int_field(TaskColumn::ExpectedDuration, p.expected_duration);
    let s8 = nullable_int_field(TaskColumn::RemainingTimeSeconds, p.remaining_time_seconds);
    let s9 = nullable_text_field(TaskColumn::TargetDate, p.target_date);
    let s10 = flag_field(TaskColumn::IsImportant, p.is_important);
    let s11 = nullable_text_field(TaskColumn::CompletedAt, p.completed_at);
    let s12 = nullable_text_field(TaskColumn::LastPausedAt, p.last_paused_at);
    let s13 = nullable_text_field(TaskColumn::LastRunAt, p.last_run_at);
    assert(all_mentioned(p, s1));
    assert(all_mentioned(p, s2));
    assert(all_mentioned(p, s3));
    assert(all_mentioned(p, s4));
    assert(all_mentioned(p, s5));
    assert(all_mentioned(p, s6));
    assert(all_mentioned(p, s7));
    assert(all_mentioned(p, s8));
    assert(all_mentioned(p, s9));
    assert(all_mentioned(p, s10));
    assert(all_mentioned(p, s11));
    assert(all_mentioned(p, s12));
    assert(all_mentioned(p, s13));
    lemma_all_mentioned_concat(p, s1, s2);
    lemma_all_mentioned_concat(p, s1 + s2, s3);
    lemma_all_mentioned_concat(p, s1 + s2 + s3, s4);
    lemma_all_mentioned_concat(p, s1 + s2 + s3 + s4, s5);
    lemma_all_mentioned_concat(p, s1 + s2 + s3 + s4 + s5, s6);
    lemma_all_mentioned_concat(p, s1 + s2 + s3 + s4 + s5 + s6, s7);
    lemma_all_mentioned_concat(p, s1 + s2 + s3 + s4 + s5 + s6 + s7, s8);
    lemma_all_mentioned_concat(p, s1 + s2 + s3 + s4 + s5 + s6 + s7 + s8, s9);
    lemma_all_mentioned_concat(p, s1 + s2 + s3 + s4 + s5 + s6 + s7 + s8 + s9, s10);
    lemma_all_mentioned_concat(p, s1 + s2 + s3 + s4 + s5 + s6 + s7 + s8 + s9 + s10, s11);
    lemma_all_mentioned_concat(p, s1 + s2 + s3 + s4 + s5 + s6 + s7 + s8 + s9 + s10 + s11, s12);
    lemma_all_mentioned_concat(
        p,
        s1 + s2 + s3 + s4 + s5 + s6 + s7 + s8 + s9 + s10 + s11 + s12,
        s13,
    );
}

/// A change leaves every column it does not mention exactly as stored; only
/// the update time is stamped whatever the change holds.
pub proof fn lemma_omitted_field_untouched(
    row: StoredRow,
    p: UpdateTaskInput,
    now: Seq<char>,
    c: TaskColumn,
)
    requires
        !mentions(p, c),
        c != TaskColumn::UpdatedAt,
    ensures
        patched(row, p, now).contains_key(c) == row.contains_key(c),
        row.contains_key(c) ==> patched(row, p, now)[c] == row[c],
        patched(row, p, now)[TaskColumn::UpdatedAt] == StoredValue::Text(now),
{
    let a = patch_assignments(p);
    let start = row.insert(TaskColumn::UpdatedAt, StoredValue::Text(now));
    lemma_assignments_are_mentioned(p);
    assert forall|i: int| 0 <= i < a.len() implies a[i].0 != c by {
        assert(mentions(p, a[i].0));
    }
    lemma_untouched_column(start, a, c);
    assert forall|i: int| 0 <= i < a.len() implies a[i].0 != TaskColumn::UpdatedAt by {
        assert(mentions(p, a[i].0));
    }
    lemma_untouched_column(start, a, TaskColumn::UpdatedAt);
}

/// The `, column = ?n` clauses for the columns `cols`, numbered from 1.
pub open spec fn set_clauses(cols: Seq<Seq<char>>) -> Seq<char>
    decreases cols.len(),
{
    if cols.len() == 0 {
        Seq::empty()
    } else {
        set_clauses(cols.drop_last()) + ", "@ + cols.last() + " = ?"@ + decimal(cols.len())
    }
}

/// The statement that stamps `updated_at` and writes the columns `cols` of
/// the row of `table` whose id is the last parameter.
pub open spec fn update_sql(table: Seq<char>, cols: Seq<Seq<char>>) -> Seq<char> {
    "UPDATE "@ + table + " SET updated_at = datetime('now')"@ + set_clauses(cols) + " WHERE id = ?"@
        + decimal(cols.len() + 1)
}

/// Writes the update statement of `table` for the columns `cols`, with the
/// values as numbered parameters `?1`, `?2`, ... and the row id after them.
pub fn update_statement(table: &str, cols: &Vec<&str>) -> (r: String)
    requires
        cols@.len() < u64::MAX,
    ensures
        r@ == update_sql(table@, cols@.map_values(|c: &str| c@)),
{
    let ghost names = cols@.map_values(|c: &str| c@);
    let a = joined("UPDATE ", table);
    let mut s = joined(a.as_str(), " SET updated_at = datetime('now')");
    let ghost head = s@;
    let mut i: usize = 0;
    while i < cols.len()
        invariant
            0 <= i <= cols@.len(),
            cols@.len() < u64::MAX,
            names == cols@.map_values(|c: &str| c@),
            s@ == head + set_clauses(names.take(i as int)),
        decreases cols@.len() - i,
    {
        let n = decimal_text(i as u64 + 1);
        s.append(", ");
        s.append(cols[i]);
        s.append(" = ?");
        s.append(n.as_str());
        proof {
            let t = names.take(i as int + 1);
            assert(t.drop_last() =~= names.take(i as int));
            assert(t.last() == cols@[i as int]@);
            assert(s@ =~= head + set_clauses(t));
        }
        i = i + 1;
    }
    assert(names.take(i as int) =~= names);
    let n = decimal_text(cols.len() as u64 + 1);
    s.append(" WHERE id = ?");
    s.append(n.as_str());
    s
}

} // verus!
