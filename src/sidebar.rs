//! Task counts for the sidebar, derived from each task's status, importance
//! and target date.

use vstd::prelude::*;
use crate::model::{SidebarCounts, TaskStatus};
use crate::text::{opt_text, text_before, text_less};

verus! {

/// What the sidebar reads of one task. The target date is the calendar day,
/// `YYYY-MM-DD` in local time, of the stored target date.
#[derive(Debug, Clone)]
pub struct SidebarEntry {
    pub status: TaskStatus,
    pub is_important: bool,
    pub local_target_day: Option<String>,
}

/// Whether a task is still to be done: in the inbox, running or paused.
pub open spec fn is_open(s: TaskStatus) -> bool {
    s is Inbox || s is InProgress || s is Paused
}

/// Whether an open task's target day is `day`.
pub open spec fn due_on(e: SidebarEntry, day: Seq<char>) -> bool {
    is_open(e.status) && opt_text(e.local_target_day) == Some(day)
}

/// Whether an open task's target day lies before `today`.
pub open spec fn overdue_on(e: SidebarEntry, today: Seq<char>) -> bool {
    is_open(e.status) && match opt_text(e.local_target_day) {
        Some(d) => text_before(d, today),
        None => false,
    }
}

/// The sidebar entries.
pub enum SidebarKey {
    Inbox,
    Completed,
    Starred,
    Today,
    Tomorrow,
    Overdue,
    Archive,
}

/// Whether a task counts under a sidebar entry.
pub open spec fn counts_under(k: SidebarKey, e: SidebarEntry, today: Seq<char>, tomorrow: Seq<char>) -> bool {
    match k {
        SidebarKey::Inbox => is_open(e.status),
        SidebarKey::Completed => e.status is Completed,
        SidebarKey::Starred => e.is_important && is_open(e.status),
        SidebarKey::Today => due_on(e, today),
        SidebarKey::Tomorrow => due_on(e, tomorrow),
        SidebarKey::Overdue => overdue_on(e, today),
        SidebarKey::Archive => e.status is Archived,
    }
}

/// How many tasks of `s` count under the entry `k`.
pub open spec fn count_under(
    s: Seq<SidebarEntry>,
    k: SidebarKey,
    today: Seq<char>,
    tomorrow: Seq<char>,
) -> nat
    decreases s.len(),
{
    if s.len() == 0 {
        0
    } else {
        count_under(s.drop_last(), k, today, tomorrow) + if counts_under(k, s.last(), today, tomorrow) {
            1nat
        } else {
            0nat
        }
    }
}

fn same_day(d: &Option<String>, day: &str) -> (r: bool)
    ensures
        r == (opt_text(*d) == Some(day@)),
{
    match d {
        Some(x) => *x == String::from_str(day),
        None => false,
    }
}

fn before_day(d: &Option<String>, today: &str) -> (r: bool)
    ensures
        r == match opt_text(*d) {
            Some(x) => text_before(x, today@),
            None => false,
        },
{
    match d {
        Some(x) => text_less(x.as_str(), today),
        None => false,
    }
}

/// Counts the tasks of each sidebar entry: open tasks (inbox), completed,
/// important open tasks (starred), open tasks due today, due tomorrow, or
/// overdue, and archived ones.
pub fn count_sidebar(entries: &Vec<SidebarEntry>, today: &str, tomorrow: &str) -> (r: SidebarCounts)
    requires
        entries@.len() <= i64::MAX,
    ensures
        r.inbox == count_under(entries@, SidebarKey::Inbox, today@, tomorrow@),
        r.completed == count_under(entries@, SidebarKey::Completed, today@, tomorrow@),
        r.starred == count_under(entries@, SidebarKey::Starred, today@, tomorrow@),
        r.today == count_under(entries@, SidebarKey::Today, today@, tomorrow@),
        r.tomorrow == count_under(entries@, SidebarKey::Tomorrow, today@, tomorrow@),
        r.overdue == count_under(entries@, SidebarKey::Overdue, today@, tomorrow@),
        r.archive == count_under(entries@, SidebarKey::Archive, today@, tomorrow@),
{
    let ghost s = entries@;
    let mut c = SidebarCounts {
        inbox: 0,
        completed: 0,
        starred: 0,
        today: 0,
        tomorrow: 0,
        overdue: 0,
        archive: 0,
    };
    let mut i: usize = 0;
    while i < entries.len()
        invariant
            0 <= i <= s.len(),
            s == entries@,
            s.len() <= i64::MAX,
            c.inbox == count_under(s.take(i as int), SidebarKey::Inbox, today@, tomorrow@),
            c.completed == count_under(s.take(i as int), SidebarKey::Completed, today@, tomorrow@),
            c.starred == count_under(s.take(i as int), SidebarKey::Starred, today@, tomorrow@),
            c.today == count_under(s.take(i as int), SidebarKey::Today, today@, tomorrow@),
            c.tomorrow == count_under(s.take(i as int), SidebarKey::Tomorrow, today@, tomorrow@),
            c.overdue == count_under(s.take(i as int), SidebarKey::Overdue, today@, tomorrow@),
            c.archive == count_under(s.take(i as int), SidebarKey::Archive, today@, tomorrow@),
            c.inbox <= i && c.completed <= i && c.starred <= i && c.today <= i,
            c.tomorrow <= i && c.overdue <= i && c.archive <= i,
        decreases s.len() - i,
    {
        let e = &entries[i];
        let ghost t = s.take(i as int + 1);
        proof {
            assert(t.drop_last() =~= s.take(i as int));
            assert(t.last() == *e);
            assert(count_under(t, SidebarKey::Inbox, today@, tomorrow@) == count_under(s.take(i as int), SidebarKey::Inbox, today@, tomorrow@) + if counts_under(SidebarKey::Inbox, *e, today@, tomorrow@) { 1nat } else { 0nat });
            assert(count_under(t, SidebarKey::Completed, today@, tomorrow@) == count_under(s.take(i as int), SidebarKey::Completed, today@, tomorrow@) + if counts_under(SidebarKey::Completed, *e, today@, tomorrow@) { 1nat } else { 0nat });
            assert(count_under(t, SidebarKey::Starred, today@, tomorrow@) == count_under(s.take(i as int), SidebarKey::Starred, today@, tomorrow@) + if counts_under(SidebarKey::Starred, *e, today@, tomorrow@) { 1nat } else { 0nat });
            assert(count_under(t, SidebarKey::Today, today@, tomorrow@) == count_under(s.take(i as int), SidebarKey::Today, today@, tomorrow@) + if counts_under(SidebarKey::Today, *e, today@, tomorrow@) { 1nat } else { 0nat });
            assert(count_under(t, SidebarKey::Tomorrow, today@, tomorrow@) == count_under(s.take(i as int), SidebarKey::Tomorrow, today@, tomorrow@) + if counts_under(SidebarKey::Tomorrow, *e, today@, tomorrow@) { 1nat } else { 0nat });
            assert(count_under(t, SidebarKey::Overdue, today@, tomorrow@) == count_under(s.take(i as int), SidebarKey::Overdue, today@, tomorrow@) + if counts_under(SidebarKey::Overdue, *e, today@, tomorrow@) { 1nat } else { 0nat });
            assert(count_under(t, SidebarKey::Archive, today@, tomorrow@) == count_under(s.take(i as int), SidebarKey::Archive, today@, tomorrow@) + if counts_under(SidebarKey::Archive, *e, today@, tomorrow@) { 1nat } else { 0nat });
        }
        let open = match e.status {
            TaskStatus::Inbox | TaskStatus::InProgress | TaskStatus::Paused => true,
            _ => false,
        };
        assert(open == is_open(e.status));
        if open {
            c.inbox = c.inbox + 1;
            if e.is_important {
                c.starred = c.starred + 1;
            }
            if same_day(&e.local_target_day, today) {
                c.today = c.today + 1;
            }
            if same_day(&e.local_target_day, tomorrow) {
                c.tomorrow = c.tomorrow + 1;
            }
            if before_day(&e.local_target_day, today) {
                c.overdue = c.overdue + 1;
            }
        }
        match e.status {
            TaskStatus::Completed => {
                c.completed = c.completed + 1;
            },
            TaskStatus::Archived => {
                c.archive = c.archive + 1;
            },
            _ => {},
        }
        i = i + 1;
    }
    proof {
        assert(s.take(i as int) =~= s);
    }
    c
}

} // verus!
