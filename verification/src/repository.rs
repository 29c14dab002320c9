//! The task store: an in-memory repository with insert/update `save`
//! semantics keyed on the sentinel identifier 0, lookup by identifier,
//! and filtered/sorted queries.

use vstd::prelude::*;
use vstd::relations::sorted_by;
use crate::task::Task;
use crate::query::{TaskFilterAndSortDto, query_order, query_pred};
use crate::query::TaskFilterAndSortSortDirectionDto;
use crate::sort::{task_order, sort_tasks};

verus! {

/// The two ways a store operation can fail: an update addressed an
/// identifier that no row carries, or the identifier space is used up.
#[derive(Debug, Clone, Copy, PartialEq, Eq, Structural)]
pub enum RepositoryError {
    NotFound,
    IdExhausted,
}

/// Some stored task carries the identifier `id`.
pub open spec fn contains_id(tasks: Seq<Task>, id: i64) -> bool {
    exists|i: int| 0 <= i < tasks.len() && (#[trigger] tasks[i]).id == id
}

/// The index of the task carrying `id` (meaningful only when ids are
/// unique and `contains_id` holds).
pub open spec fn index_of_id(tasks: Seq<Task>, id: i64) -> int {
    choose|i: int| 0 <= i < tasks.len() && (#[trigger] tasks[i]).id == id
}

/// The store after a mark-done of `id` at time `now`: the row carrying
/// `id` is replaced by `t`, which is that row with `done` set and the
/// update stamp refreshed.
pub open spec fn marked_done(pre: Seq<Task>, post: Seq<Task>, id: i64, t: Task, now: i64) -> bool {
    let idx = index_of_id(pre, id);
    &&& contains_id(pre, id)
    &&& t == (Task {
        id,
        title: pre[idx].title,
        done: true,
        created_at: pre[idx].created_at,
        updated_at: now,
    })
    &&& post == pre.update(idx, t)
}

/// The store after a rename of `id` to `new_title` at time `now`.
pub open spec fn renamed(
    pre: Seq<Task>,
    post: Seq<Task>,
    id: i64,
    new_title: String,
    t: Task,
    now: i64,
) -> bool {
    let idx = index_of_id(pre, id);
    &&& contains_id(pre, id)
    &&& t == (Task {
        id,
        title: new_title,
        done: pre[idx].done,
        created_at: pre[idx].created_at,
        updated_at: now,
    })
    &&& post == pre.update(idx, t)
}

/// No two stored tasks share an identifier.
pub open spec fn unique_ids(tasks: Seq<Task>) -> bool {
    forall|i: int, j: int|
        #![trigger tasks[i], tasks[j]]
        0 <= i < tasks.len() && 0 <= j < tasks.len() && i != j ==> tasks[i].id != tasks[j].id
}

/// The in-memory task store. Rows are kept in insertion order, which is
/// the store-default order of queries; identifiers are assigned from
/// `next_id` upward and never reused.
#[derive(Debug)]
pub struct TaskRepository {
    pub tasks: Vec<Task>,
    pub next_id: i64,
}

impl TaskRepository {
    /// The store invariant: identifiers are positive, below `next_id`,
    /// and pairwise distinct.
    pub open spec fn wf(self) -> bool {
        &&& 1 <= self.next_id
        &&& forall|i: int|
            0 <= i < self.tasks@.len() ==> 1 <= (#[trigger] self.tasks@[i]).id < self.next_id
        &&& unique_ids(self.tasks@)
    }

    /// An empty store.
    pub fn new() -> (r: TaskRepository)
        ensures
            r.wf(),
            r.tasks@.len() == 0,
            r.next_id == 1,
    {
        TaskRepository { tasks: Vec::new(), next_id: 1 }
    }

    /// The index of the row carrying `id`, if any.
    fn position_of(tasks: &Vec<Task>, id: i64) -> (r: Option<usize>)
        ensures
            match r {
                Some(i) => i < tasks@.len() && tasks@[i as int].id == id,
                None => !contains_id(tasks@, id),
            },
    {
        let n = tasks.len();
        let mut i: usize = 0;
        while i < n
            invariant
                n == tasks@.len(),
                i <= n,
                forall|j: int| 0 <= j < i ==> (#[trigger] tasks@[j]).id != id,
            decreases n - i,
        {
            if tasks[i].id == id {
                return Some(i);
            }
            i = i + 1;
        }
        None
    }

    /// Persist `task` at time `now`. An identifier of 0 means "insert":
    /// the store assigns the next identifier and sets both timestamps to
    /// `now`. Any other identifier means "update": the row carrying it is
    /// replaced wholesale, except that `created_at` is left untouched and
    /// `updated_at` is set to `now`. Updating an absent identifier fails
    /// with `NotFound`; an insert fails with `IdExhausted` once the
    /// identifier space is used up.
    pub fn save(&mut self, task: Task, now: i64) -> (r: Result<Task, RepositoryError>)
        requires
            old(self).wf(),
        ensures
            final(self).wf(),
            task.id == 0 && old(self).next_id < i64::MAX ==> (r matches Ok(t)
                && t == (Task {
                id: old(self).next_id,
                title: task.title,
                done: task.done,
                created_at: now,
                updated_at: now,
            }) && !contains_id(old(self).tasks@, t.id) && final(self).tasks@ == old(
                self,
            ).tasks@.push(t) && final(self).next_id == old(self).next_id + 1),
            task.id == 0 && old(self).next_id == i64::MAX ==> r == Err::<
                Task,
                RepositoryError,
            >(RepositoryError::IdExhausted) && *final(self) == *old(self),
            task.id != 0 && contains_id(old(self).tasks@, task.id) ==> (r matches Ok(t) && ({
                let idx = index_of_id(old(self).tasks@, task.id);
                &&& t == (Task {
                    id: task.id,
                    title: task.title,
                    done: task.done,
                    created_at: old(self).tasks@[idx].created_at,
                    updated_at: now,
                })
                &&& final(self).tasks@ == old(self).tasks@.update(idx, t)
                &&& final(self).next_id == old(self).next_id
            })),
            task.id != 0 && !contains_id(old(self).tasks@, task.id) ==> r == Err::<
                Task,
                RepositoryError,
            >(RepositoryError::NotFound) && *final(self) == *old(self),
    {
        if task.id == 0 {
            if self.next_id == i64::MAX {
                return Err(RepositoryError::IdExhausted);
            }
            let id = self.next_id;
            let t = Task {
                id,
                title: task.title,
                done: task.done,
                created_at: now,
                updated_at: now,
            };
            let result = t.clone();
            self.tasks.push(t);
            self.next_id = id + 1;
            proof {
                assert(!contains_id(old(self).tasks@, id));
                assert(unique_ids(self.tasks@));
            }
            Ok(result)
        } else {
            match Self::position_of(&self.tasks, task.id) {
                Some(i) => {
                    proof {
                        assert(contains_id(self.tasks@, task.id));
                        let k = index_of_id(self.tasks@, task.id);
                        assert(0 <= k < self.tasks@.len() && self.tasks@[k].id == task.id);
                        assert(k == i as int);
                    }
                    let created = self.tasks[i].created_at;
                    let t = Task {
                        id: task.id,
                        title: task.title,
                        done: task.done,
                        created_at: created,
                        updated_at: now,
                    };
                    let result = t.clone();
                    self.tasks[i] = t;
                    proof {
                        assert(unique_ids(self.tasks@));
                    }
                    Ok(result)
                },
                None => Err(RepositoryError::NotFound),
            }
        }
    }

    /// Every stored task, in store-default (insertion) order.
    pub fn find_all(&self) -> (r: Vec<Task>)
        ensures
            r@ == self.tasks@,
    {
        let n = self.tasks.len();
        let mut r: Vec<Task> = Vec::new();
        let mut i: usize = 0;
        while i < n
            invariant
                n == self.tasks@.len(),
                i <= n,
                r@ == self.tasks@.subrange(0, i as int),
            decreases n - i,
        {
            r.push(self.tasks[i].clone());
            i = i + 1;
            proof {
                assert(r@ =~= self.tasks@.subrange(0, i as int));
            }
        }
        proof {
            assert(self.tasks@.subrange(0, n as int) =~= self.tasks@);
        }
        r
    }

    /// The task carrying `id`, or `None` when no row carries it.
    pub fn find_by_id(&self, id: i64) -> (r: Option<Task>)
        requires
            self.wf(),
        ensures
            r is Some <==> contains_id(self.tasks@, id),
            r matches Some(t) ==> t == self.tasks@[index_of_id(self.tasks@, id)] && t.id == id,
    {
        match Self::position_of(&self.tasks, id) {
            Some(i) => {
                proof {
                    assert(contains_id(self.tasks@, id));
                    let k = index_of_id(self.tasks@, id);
                    assert(0 <= k < self.tasks@.len() && self.tasks@[k].id == id);
                    assert(k == i as int);
                }
                Some(self.tasks[i].clone())
            },
            None => None,
        }
    }

    /// Run the query `q`: keep exactly the tasks the filters admit, in
    /// store order, then sort them if a sort field is given. Without a
    /// sort field the selected tasks come back in store-default order;
    /// with one, the result is a permutation of the selection, sorted by
    /// the directive's ordering.
    pub fn find_tasks(&self, q: &TaskFilterAndSortDto) -> (r: Vec<Task>)
        ensures
            ({
                let selected = self.tasks@.filter(query_pred(*q));
                match query_order(*q) {
                    Some((field, ascending)) => r@.to_multiset() == selected.to_multiset()
                        && sorted_by(r@, task_order(field, ascending)),
                    None => r@ == selected,
                }
            }),
    {
        let n = self.tasks.len();
        let mut selected: Vec<Task> = Vec::new();
        let mut i: usize = 0;
        while i < n
            invariant
                n == self.tasks@.len(),
                i <= n,
                selected@ == self.tasks@.subrange(0, i as int).filter(query_pred(*q)),
            decreases n - i,
        {
            let ghost pre = self.tasks@.subrange(0, i as int);
            if q.admits(&self.tasks[i]) {
                selected.push(self.tasks[i].clone());
            }
            proof {
                assert(pre.push(self.tasks@[i as int]) =~= self.tasks@.subrange(0, i + 1));
                lemma_filter_push(pre, query_pred(*q), self.tasks@[i as int]);
            }
            i = i + 1;
        }
        proof {
            assert(self.tasks@.subrange(0, n as int) =~= self.tasks@);
        }
        match &q.sort {
            Some(s) => match s.field {
                Some(field) => {
                    let ascending = matches!(
                        s.direction,
                        Some(TaskFilterAndSortSortDirectionDto::Asc)
                    );
                    sort_tasks(selected, field, ascending)
                },
                None => selected,
            },
            None => selected,
        }
    }
}

/// Filtering a sequence extended by one element keeps the element exactly
/// when the predicate admits it.
proof fn lemma_filter_push(s: Seq<Task>, pred: spec_fn(Task) -> bool, t: Task)
    ensures
        s.push(t).filter(pred) == if pred(t) {
            s.filter(pred).push(t)
        } else {
            s.filter(pred)
        },
{
    assert(s.push(t).drop_last() =~= s);
    assert(s.push(t).last() == t);
    reveal(Seq::filter);
}

} // verus!
