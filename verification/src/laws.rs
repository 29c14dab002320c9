//! The laws of the store, stated and proved once over the vocabulary the
//! operation contracts use: what a mark-done or a rename does to the rest
//! of the store, idempotence of mark-done, what queries select, and the
//! create/get round trip.

use vstd::prelude::*;
use vstd::relations::sorted_by;
use crate::task::Task;
use crate::text::lex_le;
use crate::query::{TaskFilterAndSortDto, TaskFilterAndSortSortFieldDto, query_admits, query_pred};
use crate::repository::{contains_id, index_of_id, unique_ids, marked_done, renamed};
use crate::sort::task_order;

verus! {

/// Marking a task done touches nothing but that task, and advances its
/// update stamp whenever the clock did not go backwards.
pub proof fn lemma_mark_done_frame(pre: Seq<Task>, post: Seq<Task>, id: i64, t: Task, now: i64)
    requires
        marked_done(pre, post, id, t, now),
        now >= pre[index_of_id(pre, id)].updated_at,
    ensures
        t.done,
        t.updated_at >= pre[index_of_id(pre, id)].updated_at,
        post.len() == pre.len(),
        forall|j: int| 0 <= j < pre.len() && j != index_of_id(pre, id) ==> post[j] == pre[j],
{
}

/// Marking a task done twice is idempotent on the `done` field: the
/// second call changes no task's `done`, title or creation stamp.
pub proof fn lemma_mark_done_idempotent(
    s0: Seq<Task>,
    s1: Seq<Task>,
    s2: Seq<Task>,
    id: i64,
    t1: Task,
    t2: Task,
    n1: i64,
    n2: i64,
)
    requires
        unique_ids(s0),
        marked_done(s0, s1, id, t1, n1),
        marked_done(s1, s2, id, t2, n2),
    ensures
        t2.done == t1.done,
        t2.title == t1.title,
        t2.created_at == t1.created_at,
        forall|j: int| 0 <= j < s2.len() ==> s2[j].done == s1[j].done,
{
    let idx0 = index_of_id(s0, id);
    assert(0 <= idx0 < s0.len() && s0[idx0].id == id);
    assert(s1[idx0].id == id);
    assert(contains_id(s1, id));
    let idx1 = index_of_id(s1, id);
    assert(0 <= idx1 < s1.len() && s1[idx1].id == id);
    assert(idx1 == idx0) by {
        if idx1 != idx0 {
            assert(s1[idx1] == s0[idx1]);
            assert(s0[idx1].id != s0[idx0].id);
        }
    }
    assert(s1[idx1] == t1);
}

/// A rename replaces only the title: identifier, done flag and creation
/// stamp stay as they were, every other task stays untouched, and the
/// update stamp advances whenever the clock did not go backwards.
pub proof fn lemma_rename_only_title(
    pre: Seq<Task>,
    post: Seq<Task>,
    id: i64,
    new_title: String,
    t: Task,
    now: i64,
)
    requires
        renamed(pre, post, id, new_title, t, now),
        now >= pre[index_of_id(pre, id)].updated_at,
    ensures
        t.id == id,
        t.title == new_title,
        t.done == pre[index_of_id(pre, id)].done,
        t.created_at == pre[index_of_id(pre, id)].created_at,
        t.updated_at >= pre[index_of_id(pre, id)].updated_at,
        post.len() == pre.len(),
        forall|j: int| 0 <= j < pre.len() && j != index_of_id(pre, id) ==> post[j] == pre[j],
{
}

/// Filtering keeps exactly the elements the predicate admits: membership
/// in the filtered sequence is membership in the input sequence plus the
/// predicate.
pub proof fn lemma_filter_membership(s: Seq<Task>, pred: spec_fn(Task) -> bool, x: Task)
    ensures
        s.filter(pred).contains(x) <==> s.contains(x) && pred(x),
    decreases s.len(),
{
    broadcast use vstd::seq_lib::group_seq_properties;

    reveal(Seq::filter);
    if s.len() == 0 {
    } else {
        let rest = s.drop_last();
        lemma_filter_membership(rest, pred, x);
        assert(rest.push(s.last()) =~= s);
        assert(s.contains(x) <==> rest.contains(x) || x == s.last());
        if pred(s.last()) {
            assert(s.filter(pred) == rest.filter(pred).push(s.last()));
        } else {
            assert(s.filter(pred) == rest.filter(pred));
            if x == s.last() {
                assert(!s.filter(pred).contains(x)) by {
                    if s.filter(pred).contains(x) {
                        assert(rest.contains(x) && pred(x));
                    }
                }
            }
        }
    }
}

/// A query with no specification at all selects every task, in order.
pub proof fn lemma_query_without_spec_selects_all(tasks: Seq<Task>, q: TaskFilterAndSortDto)
    requires
        q.filters is None,
    ensures
        tasks.filter(query_pred(q)) == tasks,
    decreases tasks.len(),
{
    reveal(Seq::filter);
    if tasks.len() == 0 {
        assert(tasks.filter(query_pred(q)) =~= tasks);
    } else {
        let rest = tasks.drop_last();
        lemma_query_without_spec_selects_all(rest, q);
        assert(query_admits(q, tasks.last()));
        assert(tasks.filter(query_pred(q)) =~= tasks);
    }
}

/// A query filtering on `done == true` alone selects exactly the tasks
/// that are done: a task is in the selection if and only if it is in the
/// store and done.
pub proof fn lemma_done_query_selects_exactly(
    tasks: Seq<Task>,
    q: TaskFilterAndSortDto,
    t: Task,
)
    requires
        q.filters matches Some(f) && f.done == Some(true) && f.title is None
            && f.created_after is None && f.created_before is None && f.updated_after is None
            && f.updated_before is None,
    ensures
        tasks.filter(query_pred(q)).contains(t) <==> tasks.contains(t) && t.done,
{
    lemma_filter_membership(tasks, query_pred(q), t);
}

/// A result sorted by title, ascending, carries its titles in
/// non-decreasing lexicographic order.
pub proof fn lemma_title_sort_ascending(s: Seq<Task>)
    requires
        sorted_by(s, task_order(TaskFilterAndSortSortFieldDto::Title, true)),
    ensures
        forall|i: int, j: int|
            0 <= i < j < s.len() ==> lex_le(
                (#[trigger] s[i]).title@,
                (#[trigger] s[j]).title@,
            ),
{
    assert forall|i: int, j: int| 0 <= i < j < s.len() implies lex_le(
        (#[trigger] s[i]).title@,
        (#[trigger] s[j]).title@,
    ) by {
        assert(task_order(TaskFilterAndSortSortFieldDto::Title, true)(s[i], s[j]));
    }
}

/// The round trip: a task just inserted is found again under its fresh
/// identifier, equal in every field.
pub proof fn lemma_create_then_get(pre: Seq<Task>, post: Seq<Task>, t: Task)
    requires
        !contains_id(pre, t.id),
        post == pre.push(t),
    ensures
        contains_id(post, t.id),
        post[index_of_id(post, t.id)] == t,
{
    assert(post[pre.len() as int] == t);
    assert(contains_id(post, t.id));
    let k = index_of_id(post, t.id);
    assert(0 <= k < post.len() && post[k].id == t.id);
    if k < pre.len() {
        assert(pre[k] == post[k]);
        assert(contains_id(pre, t.id));
    }
}

} // verus!
