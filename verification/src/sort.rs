//! Sorting of query results: an insertion sort over the ordering a sort
//! directive induces, proved to return a sorted permutation of its input.

use vstd::prelude::*;
use vstd::relations::sorted_by;
use crate::task::Task;
use crate::query::{TaskFilterAndSortSortFieldDto, task_le, task_le_exec};
use crate::query::{lemma_task_le_total, lemma_task_le_trans};

verus! {

/// The ordering of a sort directive as a binary relation on tasks.
pub open spec fn task_order(field: TaskFilterAndSortSortFieldDto, ascending: bool) -> spec_fn(
    Task,
    Task,
) -> bool {
    |a: Task, b: Task| task_le(field, ascending, a, b)
}

/// Insert `t` into the sorted vector `out`, keeping it sorted.
fn insert_sorted(
    out: &mut Vec<Task>,
    t: Task,
    field: TaskFilterAndSortSortFieldDto,
    ascending: bool,
)
    requires
        sorted_by(old(out)@, task_order(field, ascending)),
    ensures
        sorted_by(final(out)@, task_order(field, ascending)),
        final(out)@.to_multiset() == old(out)@.to_multiset().insert(t),
{
    let ghost ord = task_order(field, ascending);
    let mut k: usize = 0;
    while k < out.len() && task_le_exec(field, ascending, &out[k], &t)
        invariant
            k <= out@.len(),
            forall|j: int| 0 <= j < k ==> task_le(field, ascending, #[trigger] out@[j], t),
        decreases out@.len() - k,
    {
        k = k + 1;
    }
    proof {
        if k < out@.len() {
            lemma_task_le_total(field, ascending, out@[k as int], t);
        }
    }
    let ghost pre = out@;
    out.insert(k, t);
    proof {
        assert(out@ == pre.insert(k as int, t));
        vstd::seq_lib::to_multiset_insert(pre, k as int, t);
        assert forall|i: int, j: int| 0 <= i < j < out@.len() implies ord(
            #[trigger] out@[i],
            #[trigger] out@[j],
        ) by {
            let ki = k as int;
            if j < ki {
                assert(out@[i] == pre[i] && out@[j] == pre[j]);
            } else if i < ki && j == ki {
                assert(out@[i] == pre[i] && out@[j] == t);
            } else if i < ki && j > ki {
                assert(out@[i] == pre[i] && out@[j] == pre[j - 1]);
            } else if i == ki {
                assert(out@[i] == t && out@[j] == pre[j - 1]);
                assert(ord(t, pre[ki]));
                if j - 1 > ki {
                    assert(ord(pre[ki], pre[j - 1]));
                    lemma_task_le_trans(field, ascending, t, pre[ki], pre[j - 1]);
                }
            } else {
                assert(out@[i] == pre[i - 1] && out@[j] == pre[j - 1]);
            }
        }
    }
}

/// Sort `tasks` by the given directive. The result is a permutation of the
/// input, sorted by the induced ordering.
pub fn sort_tasks(
    tasks: Vec<Task>,
    field: TaskFilterAndSortSortFieldDto,
    ascending: bool,
) -> (r: Vec<Task>)
    ensures
        r@.to_multiset() == tasks@.to_multiset(),
        sorted_by(r@, task_order(field, ascending)),
{
    broadcast use vstd::seq_lib::group_to_multiset_ensures;
    broadcast use vstd::multiset::group_multiset_axioms;
    broadcast use vstd::multiset::lemma_multiset_empty_len;

    let mut rest = tasks;
    let mut out: Vec<Task> = Vec::new();
    proof {
        assert(out@.to_multiset().len() == 0);
        assert(out@.to_multiset().add(rest@.to_multiset()) =~= rest@.to_multiset());
    }
    while rest.len() > 0
        invariant
            sorted_by(out@, task_order(field, ascending)),
            out@.to_multiset().add(rest@.to_multiset()) == tasks@.to_multiset(),
        decreases rest@.len(),
    {
        let ghost rest_pre = rest@;
        let ghost out_pre = out@;
        let t = rest.pop().unwrap();
        proof {
            broadcast use vstd::multiset::group_multiset_axioms;

            assert(rest_pre =~= rest@.push(t));
            vstd::seq_lib::to_multiset_build(rest@, t);
            assert(rest_pre.to_multiset() == rest@.to_multiset().insert(t));
        }
        insert_sorted(&mut out, t, field, ascending);
        proof {
            broadcast use vstd::multiset::group_multiset_axioms;

            assert(out@.to_multiset() == out_pre.to_multiset().insert(t));
            assert(out@.to_multiset().add(rest@.to_multiset()) =~= tasks@.to_multiset());
        }
    }
    proof {
        assert(rest@.to_multiset().len() == 0);
        assert(out@.to_multiset().add(rest@.to_multiset()) =~= out@.to_multiset());
    }
    out
}

} // verus!
