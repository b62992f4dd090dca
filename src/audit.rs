//! The audit trail: which events a change of a task is worth, and the entries
//! that record them.

use vstd::prelude::*;
use vstd::string::*;
use crate::model::{status_text, TaskStatus};
use crate::text::{copy_opt_text, joined, new_record_id, opt_text, same_text};

verus! {

/// The closed vocabulary of audit events.
#[derive(Debug, Clone, Copy, PartialEq, Eq, Structural)]
pub enum ActionKind {
    Created,
    Started,
    Paused,
    Completed,
    Archived,
    Restored,
    /// The fallback for a status text outside the known set.
    StatusChanged,
    TargetDateChanged,
}

/// The stored text of an action kind.
pub open spec fn action_text(k: ActionKind) -> Seq<char> {
    match k {
        ActionKind::Created => "CREATED"@,
        ActionKind::Started => "STARTED"@,
        ActionKind::Paused => "PAUSED"@,
        ActionKind::Completed => "COMPLETED"@,
        ActionKind::Archived => "ARCHIVED"@,
        ActionKind::Restored => "RESTORED"@,
        ActionKind::StatusChanged => "STATUS_CHANGED"@,
        ActionKind::TargetDateChanged => "TARGET_DATE_CHANGED"@,
    }
}

/// The action that a move to the status written `t` records.
pub open spec fn action_for_status_text(t: Seq<char>) -> ActionKind {
    if t == "IN_PROGRESS"@ {
        ActionKind::Started
    } else if t == "PAUSED"@ {
        ActionKind::Paused
    } else if t == "COMPLETED"@ {
        ActionKind::Completed
    } else if t == "ARCHIVED"@ {
        ActionKind::Archived
    } else if t == "INBOX"@ {
        ActionKind::Restored
    } else {
        ActionKind::StatusChanged
    }
}

/// The action that a move to each status records.
pub open spec fn status_action(s: TaskStatus) -> ActionKind {
    match s {
        TaskStatus::InProgress => ActionKind::Started,
        TaskStatus::Paused => ActionKind::Paused,
        TaskStatus::Completed => ActionKind::Completed,
        TaskStatus::Archived => ActionKind::Archived,
        TaskStatus::Inbox => ActionKind::Restored,
    }
}

impl ActionKind {
    /// The stored text of the action kind.
    pub fn to_string(&self) -> (r: String)
        ensures
            r@ == action_text(*self),
    {
        match self {
            ActionKind::Created => String::from_str("CREATED"),
            ActionKind::Started => String::from_str("STARTED"),
            ActionKind::Paused => String::from_str("PAUSED"),
            ActionKind::Completed => String::from_str("COMPLETED"),
            ActionKind::Archived => String::from_str("ARCHIVED"),
            ActionKind::Restored => String::from_str("RESTORED"),
            ActionKind::StatusChanged => String::from_str("STATUS_CHANGED"),
            ActionKind::TargetDateChanged => String::from_str("TARGET_DATE_CHANGED"),
        }
    }

    /// The action that a move to the status written `new_status` records;
    /// a text outside the five statuses gives `StatusChanged`.
    pub fn for_status_text(new_status: &str) -> (r: ActionKind)
        ensures
            r == action_for_status_text(new_status@),
    {
        if same_text(new_status, "IN_PROGRESS") {
            ActionKind::Started
        } else if same_text(new_status, "PAUSED") {
            ActionKind::Paused
        } else if same_text(new_status, "COMPLETED") {
            ActionKind::Completed
        } else if same_text(new_status, "ARCHIVED") {
            ActionKind::Archived
        } else if same_text(new_status, "INBOX") {
            ActionKind::Restored
        } else {
            ActionKind::StatusChanged
        }
    }
}

/// The stored text of each status maps to the action of that status.
pub proof fn lemma_status_text_action(s: TaskStatus)
    ensures
        action_for_status_text(status_text(s)) == status_action(s),
{
    reveal_strlit("INBOX");
    reveal_strlit("IN_PROGRESS");
    reveal_strlit("PAUSED");
    reveal_strlit("COMPLETED");
    reveal_strlit("ARCHIVED");
    assert("INBOX"@.len() == 5);
    assert("PAUSED"@.len() == 6);
    assert("ARCHIVED"@.len() == 8);
    assert("COMPLETED"@.len() == 9);
    assert("IN_PROGRESS"@.len() == 11);
}

/// An audit entry to append; the store stamps its creation time.
#[derive(Debug, Clone)]
pub struct AuditEntry {
    pub id: String,
    pub task_id: String,
    pub action: ActionKind,
    pub previous_status: Option<String>,
    pub new_status: Option<String>,
    pub metadata: Option<String>,
}

/// The entry fields as the contracts see them, without the row id.
pub struct AuditView {
    pub task_id: Seq<char>,
    pub action: ActionKind,
    pub previous_status: Option<Seq<char>>,
    pub new_status: Option<Seq<char>>,
    pub metadata: Option<Seq<char>>,
}

impl View for AuditEntry {
    type V = AuditView;

    open spec fn view(&self) -> AuditView {
        AuditView {
            task_id: self.task_id@,
            action: self.action,
            previous_status: opt_text(self.previous_status),
            new_status: opt_text(self.new_status),
            metadata: opt_text(self.metadata),
        }
    }
}

/// Builds an entry under a fresh row id.
pub fn record(
    task_id: &str,
    action: ActionKind,
    previous_status: Option<String>,
    new_status: Option<String>,
    metadata: Option<String>,
) -> (r: AuditEntry)
    ensures
        r@ == (AuditView {
            task_id: task_id@,
            action,
            previous_status: opt_text(previous_status),
            new_status: opt_text(new_status),
            metadata: opt_text(metadata),
        }),
        r.id@.len() == 36,
{
    AuditEntry {
        id: new_record_id(),
        task_id: String::from_str(task_id),
        action,
        previous_status,
        new_status,
        metadata,
    }
}

/// The entry written when a task is created.
pub open spec fn created_view(task_id: Seq<char>) -> AuditView {
    AuditView {
        task_id,
        action: ActionKind::Created,
        previous_status: None,
        new_status: Some("INBOX"@),
        metadata: None,
    }
}

/// The entry that records the creation of a task: `CREATED`, no previous
/// status, new status `INBOX`.
pub fn creation_entry(task_id: &str) -> (r: AuditEntry)
    ensures
        r@ == created_view(task_id@),
        r.id@.len() == 36,
{
    record(task_id, ActionKind::Created, None, Some(String::from_str("INBOX")), None)
}

/// The entry that a move from the stored status `previous` to `new_status`
/// records, or none when the stored status already is `new_status`.
pub open spec fn status_change_view(
    task_id: Seq<char>,
    previous: Option<Seq<char>>,
    new_status: TaskStatus,
) -> Option<AuditView> {
    if previous == Some(status_text(new_status)) {
        None
    } else {
        Some(
            AuditView {
                task_id,
                action: action_for_status_text(status_text(new_status)),
                previous_status: previous,
                new_status: Some(status_text(new_status)),
                metadata: None,
            },
        )
    }
}

/// The entry for a move to `new_status`, if the stored status `previous`
/// differs from it; an absent stored status counts as different.
pub fn status_change_entry(task_id: &str, previous: &Option<String>, new_status: TaskStatus) -> (r:
    Option<AuditEntry>)
    ensures
        r matches Some(e) ==> Some(e@) == status_change_view(task_id@, opt_text(*previous), new_status)
            && e.id@.len() == 36,
        r is None <==> status_change_view(task_id@, opt_text(*previous), new_status) is None,
{
    let new_text = new_status.to_string();
    let unchanged = match previous {
        Some(p) => *p == new_text,
        None => false,
    };
    if unchanged {
        None
    } else {
        let action = ActionKind::for_status_text(new_text.as_str());
        Some(record(task_id, action, copy_opt_text(previous), Some(new_text), None))
    }
}

/// A date as a JSON value: quoted, or `null` when absent.
pub open spec fn json_date(d: Option<Seq<char>>) -> Seq<char> {
    match d {
        Some(t) => "\""@ + t + "\""@,
        None => "null"@,
    }
}

/// The metadata of a target-date change: the previous date, when there was
/// one, and the new one.
pub open spec fn target_date_json(previous: Option<Seq<char>>, new: Option<Seq<char>>) -> Seq<char> {
    match previous {
        Some(p) => "{\"previousTargetDate\":"@ + json_date(Some(p)) + ",\"newTargetDate\":"@
            + json_date(new) + "}"@,
        None => "{\"newTargetDate\":"@ + json_date(new) + "}"@,
    }
}

fn json_date_text(d: &Option<String>) -> (r: String)
    ensures
        r@ == json_date(opt_text(*d)),
{
    match d {
        Some(t) => {
            let q = joined("\"", t.as_str());
            joined(q.as_str(), "\"")
        },
        None => String::from_str("null"),
    }
}

/// Writes the metadata of a target-date change.
pub fn target_date_metadata(previous: &Option<String>, new: &Option<String>) -> (r: String)
    ensures
        r@ == target_date_json(opt_text(*previous), opt_text(*new)),
{
    let new_json = json_date_text(new);
    match previous {
        Some(_) => {
            let prev_json = json_date_text(previous);
            let a = joined("{\"previousTargetDate\":", prev_json.as_str());
            let b = joined(a.as_str(), ",\"newTargetDate\":");
            let c = joined(b.as_str(), new_json.as_str());
            joined(c.as_str(), "}")
        },
        None => {
            let a = joined("{\"newTargetDate\":", new_json.as_str());
            joined(a.as_str(), "}")
        },
    }
}

/// The entry that a change of the target date from `previous` to `new`
/// records, or none when the two are the same.
pub open spec fn target_date_change_view(
    task_id: Seq<char>,
    previous: Option<Seq<char>>,
    new: Option<Seq<char>>,
) -> Option<AuditView> {
    if previous == new {
        None
    } else {
        Some(
            AuditView {
                task_id,
                action: ActionKind::TargetDateChanged,
                previous_status: None,
                new_status: None,
                metadata: Some(target_date_json(previous, new)),
            },
        )
    }
}

fn same_opt_text(a: &Option<String>, b: &Option<String>) -> (r: bool)
    ensures
        r == (opt_text(*a) == opt_text(*b)),
{
    match (a, b) {
        (Some(x), Some(y)) => *x == *y,
        (None, None) => true,
        _ => false,
    }
}

/// The entry for a change of the target date, if `new` differs from the
/// stored `previous`.
pub fn target_date_change_entry(task_id: &str, previous: &Option<String>, new: &Option<String>) -> (r:
    Option<AuditEntry>)
    ensures
        r matches Some(e) ==> Some(e@) == target_date_change_view(
            task_id@,
            opt_text(*previous),
            opt_text(*new),
        ) && e.id@.len() == 36,
        r is None <==> target_date_change_view(task_id@, opt_text(*previous), opt_text(*new)) is None,
{
    if same_opt_text(previous, new) {
        None
    } else {
        let metadata = target_date_metadata(previous, new);
        Some(record(task_id, ActionKind::TargetDateChanged, None, None, Some(metadata)))
    }
}

} // verus!
