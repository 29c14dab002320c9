//! Wire-side representations and their conversions into the query DTOs
//! and the task entity. The transport layer builds these from whatever it
//! decoded; the conversions themselves are exact and verified.

use vstd::prelude::*;
use crate::task::Task;
use crate::query::{
    TaskFilterAndSortDto, TaskFilterAndSortFiltersDto, TaskFilterAndSortSortDto,
    TaskFilterAndSortSortFieldDto, TaskFilterAndSortSortDirectionDto,
};

verus! {

/// The task as the API carries it: identifier, title and done flag only;
/// timestamps stay server-side.
#[derive(Debug)]
pub struct TaskMapper {
    pub id: i64,
    pub title: String,
    pub done: bool,
}

impl TaskMapper {
    /// Project a stored task onto its wire representation.
    pub fn from_task(task: Task) -> (m: TaskMapper)
        ensures
            m.id == task.id,
            m.title == task.title,
            m.done == task.done,
    {
        TaskMapper { id: task.id, title: task.title, done: task.done }
    }

    /// Rebuild a task from its wire representation. The wire carries no
    /// timestamps, so both stamps come back unset; the store assigns them
    /// when the task is persisted.
    pub fn into_task(self) -> (t: Task)
        ensures
            t.id == self.id,
            t.title == self.title,
            t.done == self.done,
            t.created_at == 0,
            t.updated_at == 0,
    {
        Task { id: self.id, title: self.title, done: self.done, created_at: 0, updated_at: 0 }
    }
}

/// A filter/sort query as the API carries it.
#[derive(Debug)]
pub struct TaskFilterAndSortMapper {
    pub filters: Option<TaskFilterAndSortFiltersMapper>,
    pub sort: Option<TaskFilterAndSortSortMapper>,
}

/// The filter predicates as the API carries them; timestamp bounds in
/// milliseconds since the Unix epoch.
#[derive(Debug)]
pub struct TaskFilterAndSortFiltersMapper {
    pub done: Option<bool>,
    pub title: Option<String>,
    pub created_after: Option<i64>,
    pub created_before: Option<i64>,
    pub updated_after: Option<i64>,
    pub updated_before: Option<i64>,
}

/// The sort directive as the API carries it.
#[derive(Debug)]
pub struct TaskFilterAndSortSortMapper {
    pub field: Option<TaskFilterAndSortSortFieldMapper>,
    pub direction: Option<TaskFilterAndSortSortDirectionMapper>,
}

#[derive(Debug, Clone, Copy, PartialEq, Eq, Structural)]
pub enum TaskFilterAndSortSortFieldMapper {
    CreatedAt,
    UpdatedAt,
    Title,
    Done,
}

#[derive(Debug, Clone, Copy, PartialEq, Eq, Structural)]
pub enum TaskFilterAndSortSortDirectionMapper {
    Asc,
    Desc,
}

/// What each wire-side value denotes as a DTO.
pub open spec fn dto_of_field(m: TaskFilterAndSortSortFieldMapper) -> TaskFilterAndSortSortFieldDto {
    match m {
        TaskFilterAndSortSortFieldMapper::CreatedAt => TaskFilterAndSortSortFieldDto::CreatedAt,
        TaskFilterAndSortSortFieldMapper::UpdatedAt => TaskFilterAndSortSortFieldDto::UpdatedAt,
        TaskFilterAndSortSortFieldMapper::Title => TaskFilterAndSortSortFieldDto::Title,
        TaskFilterAndSortSortFieldMapper::Done => TaskFilterAndSortSortFieldDto::Done,
    }
}

pub open spec fn dto_of_direction(m: TaskFilterAndSortSortDirectionMapper) -> TaskFilterAndSortSortDirectionDto {
    match m {
        TaskFilterAndSortSortDirectionMapper::Asc => TaskFilterAndSortSortDirectionDto::Asc,
        TaskFilterAndSortSortDirectionMapper::Desc => TaskFilterAndSortSortDirectionDto::Desc,
    }
}

pub open spec fn dto_of_sort(m: TaskFilterAndSortSortMapper) -> TaskFilterAndSortSortDto {
    TaskFilterAndSortSortDto {
        field: match m.field {
            Some(f) => Some(dto_of_field(f)),
            None => None,
        },
        direction: match m.direction {
            Some(d) => Some(dto_of_direction(d)),
            None => None,
        },
    }
}

pub open spec fn dto_of_filters(m: TaskFilterAndSortFiltersMapper) -> TaskFilterAndSortFiltersDto {
    TaskFilterAndSortFiltersDto {
        done: m.done,
        title: m.title,
        created_after: m.created_after,
        created_before: m.created_before,
        updated_after: m.updated_after,
        updated_before: m.updated_before,
    }
}

pub open spec fn dto_of_query(m: TaskFilterAndSortMapper) -> TaskFilterAndSortDto {
    TaskFilterAndSortDto {
        filters: match m.filters {
            Some(f) => Some(dto_of_filters(f)),
            None => None,
        },
        sort: match m.sort {
            Some(s) => Some(dto_of_sort(s)),
            None => None,
        },
    }
}

impl TaskFilterAndSortSortFieldMapper {
    pub fn into_dto(self) -> (d: TaskFilterAndSortSortFieldDto)
        ensures
            d == dto_of_field(self),
    {
        match self {
            TaskFilterAndSortSortFieldMapper::CreatedAt => TaskFilterAndSortSortFieldDto::CreatedAt,
            TaskFilterAndSortSortFieldMapper::UpdatedAt => TaskFilterAndSortSortFieldDto::UpdatedAt,
            TaskFilterAndSortSortFieldMapper::Title => TaskFilterAndSortSortFieldDto::Title,
            TaskFilterAndSortSortFieldMapper::Done => TaskFilterAndSortSortFieldDto::Done,
        }
    }
}

impl TaskFilterAndSortSortDirectionMapper {
    pub fn into_dto(self) -> (d: TaskFilterAndSortSortDirectionDto)
        ensures
            d == dto_of_direction(self),
    {
        match self {
            TaskFilterAndSortSortDirectionMapper::Asc => TaskFilterAndSortSortDirectionDto::Asc,
            TaskFilterAndSortSortDirectionMapper::Desc => TaskFilterAndSortSortDirectionDto::Desc,
        }
    }
}

impl TaskFilterAndSortSortMapper {
    pub fn into_dto(self) -> (d: TaskFilterAndSortSortDto)
        ensures
            d == dto_of_sort(self),
    {
        TaskFilterAndSortSortDto {
            field: match self.field {
                Some(f) => Some(f.into_dto()),
                None => None,
            },
            direction: match self.direction {
                Some(dir) => Some(dir.into_dto()),
                None => None,
            },
        }
    }
}

impl TaskFilterAndSortFiltersMapper {
    pub fn into_dto(self) -> (d: TaskFilterAndSortFiltersDto)
        ensures
            d == dto_of_filters(self),
    {
        TaskFilterAndSortFiltersDto {
            done: self.done,
            title: self.title,
            created_after: self.created_after,
            created_before: self.created_before,
            updated_after: self.updated_after,
            updated_before: self.updated_before,
        }
    }
}

impl TaskFilterAndSortMapper {
    pub fn into_dto(self) -> (d: TaskFilterAndSortDto)
        ensures
            d == dto_of_query(self),
    {
        TaskFilterAndSortDto {
            filters: match self.filters {
                Some(f) => Some(f.into_dto()),
                None => None,
            },
            sort: match self.sort {
                Some(s) => Some(s.into_dto()),
                None => None,
            },
        }
    }
}

} // verus!
