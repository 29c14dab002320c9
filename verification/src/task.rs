//! The task entity: one to-do item as the store persists it.

use vstd::prelude::*;

verus! {

/// A to-do item. An `id` of 0 means the task has not been persisted yet;
/// the store assigns identifiers starting at 1 and never reuses them.
/// Timestamps are milliseconds since the Unix epoch.
#[derive(Debug)]
pub struct Task {
    pub id: i64,
    pub title: String,
    pub done: bool,
    pub created_at: i64,
    pub updated_at: i64,
}

impl Task {
    /// A task as the create operation hands it to the store: not yet
    /// persisted, not done, timestamps left for the store to assign.
    pub fn new_unsaved(title: String) -> (t: Task)
        ensures
            t.id == 0,
            t.title == title,
            !t.done,
            t.created_at == 0,
            t.updated_at == 0,
    {
        Task { id: 0, title, done: false, created_at: 0, updated_at: 0 }
    }
}

impl Clone for Task {
    fn clone(&self) -> (t: Task)
        ensures
            t == *self,
    {
        Task {
            id: self.id,
            title: self.title.clone(),
            done: self.done,
            created_at: self.created_at,
            updated_at: self.updated_at,
        }
    }
}

/// The payload of a create request: just the title of the task to create.
#[derive(Debug)]
pub struct NewTask {
    pub title: String,
}

} // verus!
