//! The task lifecycle engine: what a create or an update writes, and which
//! audit entries it appends.

use vstd::prelude::*;
use vstd::string::*;
use crate::audit::{
    creation_entry, created_view, status_action, status_change_entry, status_change_view,
    target_date_change_entry, target_date_change_view, target_date_json, lemma_status_text_action,
    ActionKind, AuditEntry, AuditView,
};
use crate::model::{status_text, CreateTaskInput, TaskPriority, UpdateTaskInput};
use crate::patch::{
    build_assignments, column_name, patch_assignments, update_sql, update_statement, SqlValue,
    StoredValue, TaskColumn,
};
use crate::text::{new_record_id, opt_text};

verus! {

/// The status entry of an update: one when the change sets a status other
/// than the stored one, none otherwise.
pub open spec fn status_audit(p: UpdateTaskInput, previous_status: Option<Seq<char>>) -> Seq<AuditView> {
    match p.status {
        Some(s) => match status_change_view(p.id@, previous_status, s) {
            Some(e) => seq![e],
            None => seq![],
        },
        None => seq![],
    }
}

/// The target-date entry of an update: one when the change sets a target
/// date other than the stored one, none otherwise.
pub open spec fn target_date_audit(p: UpdateTaskInput, previous_target_date: Option<Seq<char>>) -> Seq<
    AuditView,
> {
    match p.target_date {
        Some(t) => match target_date_change_view(p.id@, previous_target_date, opt_text(t)) {
            Some(e) => seq![e],
            None => seq![],
        },
        None => seq![],
    }
}

/// The audit entries of an update, in the order they are appended.
pub open spec fn update_audit(
    p: UpdateTaskInput,
    previous_status: Option<Seq<char>>,
    previous_target_date: Option<Seq<char>>,
) -> Seq<AuditView> {
    status_audit(p, previous_status) + target_date_audit(p, previous_target_date)
}

/// The audit entries as the contracts see them.
pub open spec fn audit_views(a: Seq<AuditEntry>) -> Seq<AuditView> {
    a.map_values(|e: AuditEntry| e@)
}

/// The stored values as the contracts see them.
pub open spec fn values_view(v: Seq<SqlValue>) -> Seq<StoredValue> {
    v.map_values(|x: SqlValue| x@)
}

/// Everything one update writes: the statement, its parameters (the values,
/// then the task id) and the audit entries to append after it.
pub struct UpdatePlan {
    pub sql: String,
    pub params: Vec<SqlValue>,
    pub audit: Vec<AuditEntry>,
}

fn copy_value(v: &SqlValue) -> (r: SqlValue)
    ensures
        r@ == v@,
{
    match v {
        SqlValue::Null => SqlValue::Null,
        SqlValue::Integer(i) => SqlValue::Integer(*i),
        SqlValue::Text(t) => SqlValue::Text(t.clone()),
    }
}

/// Plans an update from the change and the status and target date stored
/// before it. The statement writes exactly the fields the change has and
/// stamps `updated_at`; the audit entries are those of `update_audit`.
pub fn plan_update(
    p: &UpdateTaskInput,
    previous_status: &Option<String>,
    previous_target_date: &Option<String>,
) -> (r: UpdatePlan)
    ensures
        r.sql@ == update_sql(
            "tbl_task"@,
            patch_assignments(*p).map_values(|a: (TaskColumn, StoredValue)| column_name(a.0)),
        ),
        values_view(r.params@) == patch_assignments(*p).map_values(
            |a: (TaskColumn, StoredValue)| a.1,
        ).push(StoredValue::Text(p.id@)),
        audit_views(r.audit@) == update_audit(
            *p,
            opt_text(*previous_status),
            opt_text(*previous_target_date),
        ),
        forall|i: int| 0 <= i < r.audit@.len() ==> (#[trigger] r.audit@[i]).id@.len() == 36,
{
    let assignments = build_assignments(p);
    let ghost av = patch_assignments(*p);
    let mut names: Vec<&str> = Vec::new();
    let mut params: Vec<SqlValue> = Vec::new();
    let mut i: usize = 0;
    while i < assignments.len()
        invariant
            0 <= i <= assignments@.len(),
            av == patch_assignments(*p),
            av == assignments@.map_values(|x: crate::patch::Assignment| (x.column, x.value@)),
            names@.map_values(|c: &str| c@) == av.take(i as int).map_values(
                |a: (TaskColumn, StoredValue)| column_name(a.0),
            ),
            values_view(params@) == av.take(i as int).map_values(|a: (TaskColumn, StoredValue)| a.1),
        decreases assignments@.len() - i,
    {
        let a = &assignments[i];
        let ghost old_names = names@;
        let ghost old_params = params@;
        names.push(a.column.name());
        params.push(copy_value(&a.value));
        proof {
            assert(av[i as int] == (a.column, a.value@));
            assert(av.take(i as int + 1) =~= av.take(i as int).push(av[i as int]));
            assert(names@.map_values(|c: &str| c@) =~= old_names.map_values(|c: &str| c@).push(
                column_name(a.column),
            ));
            assert(av.take(i as int + 1).map_values(|a: (TaskColumn, StoredValue)| column_name(a.0))
                =~= av.take(i as int).map_values(|a: (TaskColumn, StoredValue)| column_name(a.0)).push(
                column_name(a.column),
            ));
            assert(values_view(params@) =~= values_view(old_params).push(a.value@));
            assert(av.take(i as int + 1).map_values(|a: (TaskColumn, StoredValue)| a.1) =~= av.take(
                i as int,
            ).map_values(|a: (TaskColumn, StoredValue)| a.1).push(a.value@));
        }
        i = i + 1;
    }
    proof {
        assert(av.take(i as int) =~= av);
        crate::patch::lemma_assignments_len(*p);
        assert(names@.len() == names@.map_values(|c: &str| c@).len());
    }
    let sql = update_statement("tbl_task", &names);
    let ghost before = params@;
    params.push(SqlValue::Text(p.id.clone()));
    proof {
        assert(values_view(params@) =~= values_view(before).push(StoredValue::Text(p.id@)));
    }
    let mut audit: Vec<AuditEntry> = Vec::new();
    if let Some(s) = p.status {
        if let Some(e) = status_change_entry(p.id.as_str(), previous_status, s) {
            audit.push(e);
        }
    }
    let ghost after_status = audit@;
    proof {
        assert(audit_views(after_status) =~= status_audit(*p, opt_text(*previous_status)));
    }
    if let Some(t) = &p.target_date {
        if let Some(e) = target_date_change_entry(p.id.as_str(), previous_target_date, t) {
            audit.push(e);
        }
    }
    proof {
        assert(audit_views(audit@) =~= update_audit(
            *p,
            opt_text(*previous_status),
            opt_text(*previous_target_date),
        ));
    }
    UpdatePlan { sql, params, audit }
}

/// Expected duration, in minutes, of a task created without one.
pub const DEFAULT_EXPECTED_MINUTES: i64 = 5;

/// The task row that a create inserts; the store stamps its times and gives
/// the other columns their defaults.
#[derive(Debug, Clone)]
pub struct NewTask {
    pub id: String,
    pub title: String,
    pub description: Option<String>,
    pub url: Option<String>,
    pub priority: TaskPriority,
    pub expected_duration: i64,
    pub target_date: Option<String>,
}

/// A tag row to insert; the store ignores a tag the task already has.
#[derive(Debug, Clone)]
pub struct TagRow {
    pub id: String,
    pub task_id: String,
    pub tag: String,
}

/// Everything one create writes: the task, its tags, and the `CREATED` entry.
pub struct CreatePlan {
    pub task: NewTask,
    pub tags: Vec<TagRow>,
    pub audit: AuditEntry,
}

/// The tags a create asks for.
pub open spec fn requested_tags(input: CreateTaskInput) -> Seq<String> {
    match input.tags {
        Some(t) => t@,
        None => Seq::empty(),
    }
}

/// Plans the row of a tag under a fresh row id.
pub fn plan_tag(task_id: &str, tag: &str) -> (r: TagRow)
    ensures
        r.task_id@ == task_id@,
        r.tag@ == tag@,
        r.id@.len() == 36,
{
    TagRow { id: new_record_id(), task_id: String::from_str(task_id), tag: String::from_str(tag) }
}

/// Plans a create under a fresh task id: the fields as given, priority
/// `MEDIUM` and an expected duration of 5 minutes where the input has none,
/// one tag row per requested tag in order, and the `CREATED` entry with new
/// status `INBOX`.
pub fn plan_create(input: CreateTaskInput) -> (r: CreatePlan)
    ensures
        r.task.id@.len() == 36,
        r.task.title@ == input.title@,
        opt_text(r.task.description) == opt_text(input.description),
        opt_text(r.task.url) == opt_text(input.url),
        r.task.priority == match input.priority {
            Some(p) => p,
            None => TaskPriority::Medium,
        },
        r.task.expected_duration == match input.expected_duration {
            Some(d) => d,
            None => DEFAULT_EXPECTED_MINUTES,
        },
        opt_text(r.task.target_date) == opt_text(input.target_date),
        r.tags@.len() == requested_tags(input).len(),
        forall|i: int|
            0 <= i < r.tags@.len() ==> (#[trigger] r.tags@[i]).tag@ == requested_tags(input)[i]@
                && r.tags@[i].task_id@ == r.task.id@ && r.tags@[i].id@.len() == 36,
        r.audit@ == created_view(r.task.id@),
        r.audit.id@.len() == 36,
{
    let id = new_record_id();
    let priority = match input.priority {
        Some(p) => p,
        None => TaskPriority::Medium,
    };
    let expected_duration = match input.expected_duration {
        Some(d) => d,
        None => DEFAULT_EXPECTED_MINUTES,
    };
    let ghost wanted = requested_tags(input);
    let mut tags: Vec<TagRow> = Vec::new();
    match &input.tags {
        Some(list) => {
            let mut i: usize = 0;
            while i < list.len()
                invariant
                    0 <= i <= list@.len(),
                    wanted == list@,
                    tags@.len() == i,
                    forall|j: int|
                        0 <= j < i ==> (#[trigger] tags@[j]).tag@ == wanted[j]@ && tags@[j].task_id@
                            == id@ && tags@[j].id@.len() == 36,
                decreases list@.len() - i,
            {
                let row = plan_tag(id.as_str(), list[i].as_str());
                tags.push(row);
                i = i + 1;
            }
        },
        None => {},
    }
    let audit = creation_entry(id.as_str());
    let task = NewTask {
        id,
        title: input.title,
        description: input.description,
        url: input.url,
        priority,
        expected_duration,
        target_date: input.target_date,
    };
    CreatePlan { task, tags, audit }
}

/// An update that sets the status to the stored one appends no status
/// entry; one that sets another status appends exactly one, whose kind is the
/// one of the new status (`STARTED`, `PAUSED`, `COMPLETED`, `ARCHIVED`,
/// `RESTORED`) and which records both statuses. Whatever the target-date part
/// appends is a `TARGET_DATE_CHANGED` entry.
pub proof fn lemma_status_change_audited(
    p: UpdateTaskInput,
    previous_status: Option<Seq<char>>,
    previous_target_date: Option<Seq<char>>,
)
    requires
        p.status is Some,
    ensures
        previous_status == Some(status_text(p.status.unwrap())) ==> update_audit(
            p,
            previous_status,
            previous_target_date,
        ) == target_date_audit(p, previous_target_date),
        previous_status != Some(status_text(p.status.unwrap())) ==> update_audit(
            p,
            previous_status,
            previous_target_date,
        ) == seq![
            AuditView {
                task_id: p.id@,
                action: status_action(p.status.unwrap()),
                previous_status,
                new_status: Some(status_text(p.status.unwrap())),
                metadata: None,
            },
        ] + target_date_audit(p, previous_target_date),
        forall|i: int|
            0 <= i < target_date_audit(p, previous_target_date).len() ==> (#[trigger] target_date_audit(
                p,
                previous_target_date,
            )[i]).action == ActionKind::TargetDateChanged,
{
    lemma_status_text_action(p.status.unwrap());
    if previous_status == Some(status_text(p.status.unwrap())) {
        assert(status_audit(p, previous_status) =~= Seq::empty());
        assert(update_audit(p, previous_status, previous_target_date) =~= target_date_audit(
            p,
            previous_target_date,
        ));
    }
}

/// An update without a status appends no status entry.
pub proof fn lemma_no_status_no_status_entry(
    p: UpdateTaskInput,
    previous_status: Option<Seq<char>>,
    previous_target_date: Option<Seq<char>>,
)
    requires
        p.status is None,
    ensures
        update_audit(p, previous_status, previous_target_date) == target_date_audit(
            p,
            previous_target_date,
        ),
{
    assert(update_audit(p, previous_status, previous_target_date) =~= target_date_audit(
        p,
        previous_target_date,
    ));
}

/// An update that sets the target date to the stored one appends no
/// target-date entry; one that sets another (also where none was stored, or
/// where the new one clears it) appends exactly one `TARGET_DATE_CHANGED`
/// entry whose metadata holds the previous date, if any, and the new one.
/// The status part never appends a `TARGET_DATE_CHANGED` entry.
pub proof fn lemma_target_date_change_audited(
    p: UpdateTaskInput,
    previous_status: Option<Seq<char>>,
    previous_target_date: Option<Seq<char>>,
)
    requires
        p.target_date is Some,
    ensures
        previous_target_date == opt_text(p.target_date.unwrap()) ==> update_audit(
            p,
            previous_status,
            previous_target_date,
        ) == status_audit(p, previous_status),
        previous_target_date != opt_text(p.target_date.unwrap()) ==> update_audit(
            p,
            previous_status,
            previous_target_date,
        ) == status_audit(p, previous_status) + seq![
            AuditView {
                task_id: p.id@,
                action: ActionKind::TargetDateChanged,
                previous_status: None,
                new_status: None,
                metadata: Some(target_date_json(previous_target_date, opt_text(p.target_date.unwrap()))),
            },
        ],
        forall|i: int|
            0 <= i < status_audit(p, previous_status).len() ==> (#[trigger] status_audit(
                p,
                previous_status,
            )[i]).action != ActionKind::TargetDateChanged,
{
    if previous_target_date == opt_text(p.target_date.unwrap()) {
        assert(update_audit(p, previous_status, previous_target_date) =~= status_audit(
            p,
            previous_status,
        ));
    }
    if let Some(s) = p.status {
        lemma_status_text_action(s);
    }
}

} // verus!
