//! The task service: the four lifecycle operations over the store.
//! Mutations are stamped with the wall clock; every other aspect of each
//! operation is pinned down for any time the clock may return. The only
//! store failure the in-memory repository can raise is identifier
//! exhaustion, so that is the only error the service surfaces.

use vstd::prelude::*;
use vstd::relations::sorted_by;
use crate::task::Task;
use crate::query::{TaskFilterAndSortDto, query_order, query_pred};
use crate::repository::{TaskRepository, RepositoryError, contains_id, index_of_id, marked_done, renamed};
use crate::sort::task_order;
use crate::clock::now_millis;

verus! {

/// The service holds no state of its own beyond the repository it drives.
#[derive(Debug)]
pub struct TaskService {
    pub repository: TaskRepository,
}

impl TaskService {
    pub open spec fn wf(self) -> bool {
        self.repository.wf()
    }

    pub fn new(task_repository: TaskRepository) -> (s: TaskService)
        ensures
            s.repository == task_repository,
    {
        TaskService { repository: task_repository }
    }

    /// Create a task titled `title`: not done, freshly identified, with
    /// equal creation and update stamps taken from the clock. Fails only
    /// when the identifier space is used up.
    pub fn create_task(&mut self, title: &str) -> (r: Result<Task, RepositoryError>)
        requires
            old(self).wf(),
        ensures
            final(self).wf(),
            old(self).repository.next_id < i64::MAX ==> r is Ok,
            r matches Ok(t) ==> ({
                &&& t.id == old(self).repository.next_id
                &&& t.title@ == title@
                &&& !t.done
                &&& t.created_at == t.updated_at
                &&& !contains_id(old(self).repository.tasks@, t.id)
                &&& final(self).repository.tasks@ == old(self).repository.tasks@.push(t)
                &&& final(self).repository.next_id == old(self).repository.next_id + 1
            }),
            r matches Err(e) ==> e == RepositoryError::IdExhausted && old(self).repository.next_id
                == i64::MAX && *final(self) == *old(self),
    {
        let now = now_millis();
        let task = Task::new_unsaved(title.to_owned());
        self.repository.save(task, now)
    }

    /// Mark the task carrying `id` as done, unconditionally; re-marking a
    /// done task changes nothing but its update stamp. Returns `None`
    /// when no task carries `id`.
    pub fn mark_done(&mut self, id: i64) -> (r: Option<Task>)
        requires
            old(self).wf(),
        ensures
            final(self).wf(),
            r is Some <==> contains_id(old(self).repository.tasks@, id),
            r matches Some(t) ==> ({
                let idx = index_of_id(old(self).repository.tasks@, id);
                let prev = old(self).repository.tasks@[idx];
                &&& t.id == id
                &&& t.done
                &&& t.title == prev.title
                &&& t.created_at == prev.created_at
                &&& final(self).repository.tasks@ == old(self).repository.tasks@.update(idx, t)
                &&& final(self).repository.next_id == old(self).repository.next_id
                &&& marked_done(
                    old(self).repository.tasks@,
                    final(self).repository.tasks@,
                    id,
                    t,
                    t.updated_at,
                )
            }),
            r is None ==> *final(self) == *old(self),
    {
        match self.repository.find_by_id(id) {
            Some(task) => {
                let mut task = task;
                task.done = true;
                let now = now_millis();
                match self.repository.save(task, now) {
                    Ok(t) => Some(t),
                    Err(_) => {
                        proof {
                            assert(false);
                        }
                        None
                    },
                }
            },
            None => None,
        }
    }

    /// Replace the title of the task carrying `id`; identifier, done flag
    /// and creation stamp stay untouched. The update stamp is refreshed
    /// even when the new title equals the old one. Returns `None` when no
    /// task carries `id`.
    pub fn rename_task(&mut self, id: i64, new_title: String) -> (r: Option<Task>)
        requires
            old(self).wf(),
        ensures
            final(self).wf(),
            r is Some <==> contains_id(old(self).repository.tasks@, id),
            r matches Some(t) ==> ({
                let idx = index_of_id(old(self).repository.tasks@, id);
                let prev = old(self).repository.tasks@[idx];
                &&& t.id == id
                &&& t.title == new_title
                &&& t.done == prev.done
                &&& t.created_at == prev.created_at
                &&& final(self).repository.tasks@ == old(self).repository.tasks@.update(idx, t)
                &&& final(self).repository.next_id == old(self).repository.next_id
                &&& renamed(
                    old(self).repository.tasks@,
                    final(self).repository.tasks@,
                    id,
                    new_title,
                    t,
                    t.updated_at,
                )
            }),
            r is None ==> *final(self) == *old(self),
    {
        match self.repository.find_by_id(id) {
            Some(task) => {
                let mut task = task;
                task.title = new_title;
                let now = now_millis();
                match self.repository.save(task, now) {
                    Ok(t) => Some(t),
                    Err(_) => {
                        proof {
                            assert(false);
                        }
                        None
                    },
                }
            },
            None => None,
        }
    }

    /// The task carrying `id`, or `None`.
    pub fn get_task(&self, id: i64) -> (r: Option<Task>)
        requires
            self.wf(),
        ensures
            r is Some <==> contains_id(self.repository.tasks@, id),
            r matches Some(t) ==> t == self.repository.tasks@[index_of_id(
                self.repository.tasks@,
                id,
            )] && t.id == id,
    {
        self.repository.find_by_id(id)
    }

    /// Every task, in store-default order.
    pub fn list_tasks(&self) -> (r: Vec<Task>)
        ensures
            r@ == self.repository.tasks@,
    {
        self.repository.find_all()
    }

    /// Run a filter/sort query against the store.
    pub fn find_tasks(&self, filter_and_sort: &TaskFilterAndSortDto) -> (r: Vec<Task>)
        ensures
            ({
                let selected = self.repository.tasks@.filter(query_pred(*filter_and_sort));
                match query_order(*filter_and_sort) {
                    Some((field, ascending)) => r@.to_multiset() == selected.to_multiset()
                        && sorted_by(r@, task_order(field, ascending)),
                    None => r@ == selected,
                }
            }),
    {
        self.repository.find_tasks(filter_and_sort)
    }
}

} // verus!
