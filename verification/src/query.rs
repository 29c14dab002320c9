//! The filter/sort specification of a query and its exact semantics:
//! which tasks a filter admits, and in what order a sort directive
//! arranges them.

use vstd::prelude::*;
use crate::task::Task;
use crate::text::{title_contains, title_matches, chars_of, chars_lex_le, lex_le};
use crate::text::{lemma_lex_le_total, lemma_lex_le_trans};

verus! {

/// An optional conjunction of predicates plus an optional sort directive.
/// An absent part constrains nothing.
#[derive(Debug)]
pub struct TaskFilterAndSortDto {
    pub filters: Option<TaskFilterAndSortFiltersDto>,
    pub sort: Option<TaskFilterAndSortSortDto>,
}

/// The predicate set: each populated field must hold of a task for the
/// task to be selected; fields left `None` impose no constraint.
/// Timestamp bounds are strict and in milliseconds since the Unix epoch.
#[derive(Debug)]
pub struct TaskFilterAndSortFiltersDto {
    pub done: Option<bool>,
    pub title: Option<String>,
    pub created_after: Option<i64>,
    pub created_before: Option<i64>,
    pub updated_after: Option<i64>,
    pub updated_before: Option<i64>,
}

/// The sort directive: at most one field, with an optional direction.
/// A missing direction means descending; ascending holds only when asked
/// for explicitly.
#[derive(Debug)]
pub struct TaskFilterAndSortSortDto {
    pub field: Option<TaskFilterAndSortSortFieldDto>,
    pub direction: Option<TaskFilterAndSortSortDirectionDto>,
}

#[derive(Debug, Clone, Copy, PartialEq, Eq, Structural)]
pub enum TaskFilterAndSortSortFieldDto {
    CreatedAt,
    UpdatedAt,
    Title,
    Done,
}

#[derive(Debug, Clone, Copy, PartialEq, Eq, Structural)]
pub enum TaskFilterAndSortSortDirectionDto {
    Asc,
    Desc,
}

/// Does `t` satisfy every populated predicate of `f`?
pub open spec fn filters_admit(f: TaskFilterAndSortFiltersDto, t: Task) -> bool {
    &&& match f.done {
        Some(d) => t.done == d,
        None => true,
    }
    &&& match f.title {
        Some(p) => title_contains(t.title@, p@),
        None => true,
    }
    &&& match f.created_after {
        Some(x) => t.created_at > x,
        None => true,
    }
    &&& match f.created_before {
        Some(x) => t.created_at < x,
        None => true,
    }
    &&& match f.updated_after {
        Some(x) => t.updated_at > x,
        None => true,
    }
    &&& match f.updated_before {
        Some(x) => t.updated_at < x,
        None => true,
    }
}

/// Does `t` satisfy the query `q`? A query without filters admits every task.
pub open spec fn query_admits(q: TaskFilterAndSortDto, t: Task) -> bool {
    match q.filters {
        Some(f) => filters_admit(f, t),
        None => true,
    }
}

/// The filter predicate of a query, as a function on tasks.
pub open spec fn query_pred(q: TaskFilterAndSortDto) -> spec_fn(Task) -> bool {
    |t: Task| query_admits(q, t)
}

/// The ordering a query asks for: the sort field together with whether the
/// direction is ascending, or `None` when the query orders nothing.
/// Ascending holds exactly when the directive says `Asc`; a missing
/// direction defaults to descending.
pub open spec fn query_order(q: TaskFilterAndSortDto) -> Option<(
    TaskFilterAndSortSortFieldDto,
    bool,
)> {
    match q.sort {
        Some(s) => match s.field {
            Some(field) => Some(
                (field, s.direction == Some(TaskFilterAndSortSortDirectionDto::Asc)),
            ),
            None => None,
        },
        None => None,
    }
}

/// The "at most" relation a sort directive induces on tasks: `a` may stand
/// before `b`. Titles compare lexicographically by Unicode scalar value;
/// `done` orders false before true when ascending.
pub open spec fn task_le(
    field: TaskFilterAndSortSortFieldDto,
    ascending: bool,
    a: Task,
    b: Task,
) -> bool {
    match field {
        TaskFilterAndSortSortFieldDto::CreatedAt => if ascending {
            a.created_at <= b.created_at
        } else {
            b.created_at <= a.created_at
        },
        TaskFilterAndSortSortFieldDto::UpdatedAt => if ascending {
            a.updated_at <= b.updated_at
        } else {
            b.updated_at <= a.updated_at
        },
        TaskFilterAndSortSortFieldDto::Title => if ascending {
            lex_le(a.title@, b.title@)
        } else {
            lex_le(b.title@, a.title@)
        },
        TaskFilterAndSortSortFieldDto::Done => if ascending {
            !a.done || b.done
        } else {
            !b.done || a.done
        },
    }
}

/// `task_le` is total: any two tasks compare one way or the other.
pub proof fn lemma_task_le_total(
    field: TaskFilterAndSortSortFieldDto,
    ascending: bool,
    a: Task,
    b: Task,
)
    ensures
        task_le(field, ascending, a, b) || task_le(field, ascending, b, a),
{
    if field == TaskFilterAndSortSortFieldDto::Title {
        lemma_lex_le_total(a.title@, b.title@);
    }
}

/// `task_le` is transitive.
pub proof fn lemma_task_le_trans(
    field: TaskFilterAndSortSortFieldDto,
    ascending: bool,
    a: Task,
    b: Task,
    c: Task,
)
    requires
        task_le(field, ascending, a, b),
        task_le(field, ascending, b, c),
    ensures
        task_le(field, ascending, a, c),
{
    if field == TaskFilterAndSortSortFieldDto::Title {
        if ascending {
            lemma_lex_le_trans(a.title@, b.title@, c.title@);
        } else {
            lemma_lex_le_trans(c.title@, b.title@, a.title@);
        }
    }
}

impl TaskFilterAndSortFiltersDto {
    /// Decide every populated predicate against `t`.
    pub fn admits(&self, t: &Task) -> (r: bool)
        ensures
            r == filters_admit(*self, *t),
    {
        let done_ok = match self.done {
            Some(d) => t.done == d,
            None => true,
        };
        let title_ok = match &self.title {
            Some(p) => title_matches(t.title.as_str(), p.as_str()),
            None => true,
        };
        let created_ok = (match self.created_after {
            Some(x) => t.created_at > x,
            None => true,
        }) && (match self.created_before {
            Some(x) => t.created_at < x,
            None => true,
        });
        let updated_ok = (match self.updated_after {
            Some(x) => t.updated_at > x,
            None => true,
        }) && (match self.updated_before {
            Some(x) => t.updated_at < x,
            None => true,
        });
        done_ok && title_ok && created_ok && updated_ok
    }
}

impl TaskFilterAndSortDto {
    /// Decide whether the query admits `t`.
    pub fn admits(&self, t: &Task) -> (r: bool)
        ensures
            r == query_admits(*self, *t),
    {
        match &self.filters {
            Some(f) => f.admits(t),
            None => true,
        }
    }
}

/// Decide `task_le`: may `a` stand before `b` under this directive?
pub fn task_le_exec(
    field: TaskFilterAndSortSortFieldDto,
    ascending: bool,
    a: &Task,
    b: &Task,
) -> (r: bool)
    ensures
        r == task_le(field, ascending, *a, *b),
{
    match field {
        TaskFilterAndSortSortFieldDto::CreatedAt => if ascending {
            a.created_at <= b.created_at
        } else {
            b.created_at <= a.created_at
        },
        TaskFilterAndSortSortFieldDto::UpdatedAt => if ascending {
            a.updated_at <= b.updated_at
        } else {
            b.updated_at <= a.updated_at
        },
        TaskFilterAndSortSortFieldDto::Title => {
            let ca = chars_of(a.title.as_str());
            let cb = chars_of(b.title.as_str());
            if ascending {
                chars_lex_le(&ca, &cb)
            } else {
                chars_lex_le(&cb, &ca)
            }
        },
        TaskFilterAndSortSortFieldDto::Done => if ascending {
            !a.done || b.done
        } else {
            !b.done || a.done
        },
    }
}

} // verus!
