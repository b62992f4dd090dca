//! The order and selection of the task list: important tasks first, then the
//! most recently created, optionally only the tasks of one status.

use vstd::prelude::*;
use vstd::multiset::Multiset;
use crate::model::{status_text, Task};
use crate::store::DbError;
use crate::text::{
    joined, lemma_text_before_irreflexive, lemma_text_before_transitive, opt_text, text_before, text_less,
};

verus! {

broadcast use {vstd::seq_lib::group_to_multiset_ensures, vstd::multiset::group_multiset_axioms};

/// Whether `x` is listed before `y`: an important task before one that is
/// not, and among equally important tasks the later-created one first.
pub open spec fn listed_before(x: Task, y: Task) -> bool {
    (x.is_important && !y.is_important) || (x.is_important == y.is_important && text_before(
        y.created_at@,
        x.created_at@,
    ))
}

/// Whether no task of `s` should be listed before one that precedes it.
pub open spec fn in_listing_order(s: Seq<Task>) -> bool {
    forall|i: int, j: int| 0 <= i < j < s.len() ==> !#[trigger] listed_before(s[j], s[i])
}

proof fn lemma_listed_before_irreflexive(x: Task)
    ensures
        !listed_before(x, x),
{
    lemma_text_before_irreflexive(x.created_at@);
}

proof fn lemma_listed_before_transitive(x: Task, y: Task, z: Task)
    requires
        listed_before(x, y),
        listed_before(y, z),
    ensures
        listed_before(x, z),
{
    if x.is_important == y.is_important && y.is_important == z.is_important {
        lemma_text_before_transitive(z.created_at@, y.created_at@, x.created_at@);
    }
}

/// Whether `x` is listed before `y`.
pub fn is_listed_before(x: &Task, y: &Task) -> (r: bool)
    ensures
        r == listed_before(*x, *y),
{
    if x.is_important && !y.is_important {
        true
    } else if x.is_important == y.is_important {
        text_less(y.created_at.as_str(), x.created_at.as_str())
    } else {
        false
    }
}

fn first_to_list(tasks: &Vec<Task>) -> (r: usize)
    requires
        tasks@.len() > 0,
    ensures
        r < tasks@.len(),
        forall|j: int| 0 <= j < tasks@.len() ==> !#[trigger] listed_before(tasks@[j], tasks@[r as int]),
{
    let mut best: usize = 0;
    let mut k: usize = 1;
    proof {
        lemma_listed_before_irreflexive(tasks@[0]);
    }
    while k < tasks.len()
        invariant
            1 <= k <= tasks@.len(),
            best < k,
            forall|j: int| 0 <= j < k ==> !#[trigger] listed_before(tasks@[j], tasks@[best as int]),
        decreases tasks@.len() - k,
    {
        if is_listed_before(&tasks[k], &tasks[best]) {
            proof {
                let nb = tasks@[k as int];
                let ob = tasks@[best as int];
                lemma_listed_before_irreflexive(nb);
                assert forall|j: int| 0 <= j < k + 1 implies !#[trigger] listed_before(
                    tasks@[j],
                    nb,
                ) by {
                    if j < k && listed_before(tasks@[j], nb) {
                        lemma_listed_before_transitive(tasks@[j], nb, ob);
                    }
                }
            }
            best = k;
        }
        k = k + 1;
    }
    best
}

/// Puts tasks in listing order: important first, then the most recently
/// created first. The result holds the same tasks.
pub fn order_for_listing(tasks: Vec<Task>) -> (r: Vec<Task>)
    ensures
        in_listing_order(r@),
        r@.to_multiset() == tasks@.to_multiset(),
{
    let mut rem = tasks;
    let mut out: Vec<Task> = Vec::new();
    while rem.len() > 0
        invariant
            out@.to_multiset().add(rem@.to_multiset()) == tasks@.to_multiset(),
            in_listing_order(out@),
            forall|i: int, j: int|
                0 <= i < out@.len() && 0 <= j < rem@.len() ==> !#[trigger] listed_before(
                    rem@[j],
                    out@[i],
                ),
        decreases rem@.len(),
    {
        let b = first_to_list(&rem);
        let ghost before_rem = rem@;
        let ghost before_out = out@;
        let t = rem.remove(b);
        out.push(t);
        proof {
            assert(rem@ == before_rem.remove(b as int));
            assert(before_rem.to_multiset().count(before_rem[b as int]) > 0);
            assert(out@.to_multiset().add(rem@.to_multiset()) =~= tasks@.to_multiset());
            assert forall|i: int, j: int| 0 <= i < j < out@.len() implies !#[trigger] listed_before(
                out@[j],
                out@[i],
            ) by {
                if j == out@.len() - 1 {
                    assert(out@[j] == before_rem[b as int]);
                    assert(before_out[i] == out@[i]);
                } else {
                    assert(out@[j] == before_out[j]);
                    assert(out@[i] == before_out[i]);
                }
            }
            assert forall|i: int, j: int|
                0 <= i < out@.len() && 0 <= j < rem@.len() implies !#[trigger] listed_before(
                rem@[j],
                out@[i],
            ) by {
                let jj = if j < b { j } else { j + 1 };
                assert(rem@[j] == before_rem[jj]);
                if i == out@.len() - 1 {
                    assert(out@[i] == before_rem[b as int]);
                } else {
                    assert(out@[i] == before_out[i]);
                }
            }
        }
    }
    proof {
        assert(rem@.to_multiset() =~= Multiset::empty());
        assert(out@.to_multiset().add(Multiset::empty()) =~= out@.to_multiset());
    }
    out
}

/// Whether a task is shown under an optional status filter, given as stored
/// status text.
pub open spec fn shown_under(t: Task, status: Option<Seq<char>>) -> bool {
    match status {
        Some(s) => status_text(t.status) == s,
        None => true,
    }
}

fn is_shown_under(t: &Task, status: &Option<String>) -> (r: bool)
    ensures
        r == shown_under(*t, opt_text(*status)),
{
    match status {
        Some(s) => t.status.to_string() == *s,
        None => true,
    }
}

/// The task list: the tasks the status filter keeps (all of them without a
/// filter), in listing order.
pub fn select_for_listing(tasks: Vec<Task>, status: &Option<String>) -> (r: Vec<Task>)
    ensures
        in_listing_order(r@),
        r@.to_multiset() == tasks@.filter(|t: Task| shown_under(t, opt_text(*status))).to_multiset(),
{
    let ghost f = |t: Task| shown_under(t, opt_text(*status));
    let mut rem = tasks;
    let mut kept: Vec<Task> = Vec::new();
    proof {
        assert(kept@.to_multiset() =~= Multiset::empty());
    }
    while rem.len() > 0
        invariant
            f == (|t: Task| shown_under(t, opt_text(*status))),
            kept@.to_multiset().add(rem@.filter(f).to_multiset()) == tasks@.filter(f).to_multiset(),
        decreases rem@.len(),
    {
        let ghost before = rem@;
        let ghost before_kept = kept@;
        let t = rem.pop().unwrap();
        proof {
            assert(rem@ == before.drop_last());
            assert(t == before.last());
            reveal(Seq::filter);
            assert(before.filter(f) == if f(before.last()) {
                before.drop_last().filter(f).push(before.last())
            } else {
                before.drop_last().filter(f)
            });
        }
        if is_shown_under(&t, status) {
            kept.push(t);
            proof {
                assert(kept@.to_multiset().add(rem@.filter(f).to_multiset()) =~= tasks@.filter(
                    f,
                ).to_multiset());
            }
        }
    }
    proof {
        reveal(Seq::filter);
        assert(rem@.filter(f) =~= Seq::<Task>::empty());
        assert(rem@.filter(f).to_multiset() =~= Multiset::empty());
        assert(kept@.to_multiset().add(Multiset::empty()) =~= kept@.to_multiset());
    }
    order_for_listing(kept)
}

/// The task a lookup by id found: the first row, or `NotFound` naming the id
/// when there is none (as after the task was deleted).
pub fn found_task(tasks: Vec<Task>, id: &str) -> (r: Result<Task, DbError>)
    ensures
        r is Err <==> tasks@.len() == 0,
        r matches Ok(t) ==> t == tasks@[0],
        r matches Err(e) ==> e matches DbError::NotFound(m) && m@ == "Task not found: "@ + id@,
{
    let mut tasks = tasks;
    if tasks.len() == 0 {
        Err(DbError::NotFound(joined("Task not found: ", id)))
    } else {
        Ok(tasks.remove(0))
    }
}

/// In listing order, importance outranks recency: a task that is not
/// important never precedes an important one, and among equally important
/// tasks none precedes a later-created one.
pub proof fn lemma_listing_order(s: Seq<Task>, i: int, j: int)
    requires
        in_listing_order(s),
        0 <= i < j < s.len(),
    ensures
        s[j].is_important ==> s[i].is_important,
        s[i].is_important == s[j].is_important ==> !text_before(s[i].created_at@, s[j].created_at@),
{
    assert(!listed_before(s[j], s[i]));
}

/// A task that is to be listed before every other one stands first.
pub proof fn lemma_listed_first(s: Seq<Task>, k: int)
    requires
        in_listing_order(s),
        0 <= k < s.len(),
        forall|j: int| 0 <= j < s.len() && j != k ==> #[trigger] listed_before(s[k], s[j]),
    ensures
        k == 0,
{
    if k > 0 {
        assert(listed_before(s[k], s[0]));
    }
}

/// The only important task stands first, whatever the creation times.
pub proof fn lemma_only_important_listed_first(s: Seq<Task>, k: int)
    requires
        in_listing_order(s),
        0 <= k < s.len(),
        s[k].is_important,
        forall|j: int| 0 <= j < s.len() && j != k ==> !(#[trigger] s[j]).is_important,
    ensures
        k == 0,
{
    if k > 0 {
        assert(!s[0].is_important);
        assert(listed_before(s[k], s[0]));
    }
}

} // verus!
