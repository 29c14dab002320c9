//! A verified task-tracking core: a task store with create, rename,
//! mark-done and filtered/sorted queries, specified down to the ordering
//! and matching semantics of every query.

pub mod task;
pub mod text;
pub mod query;
pub mod sort;
pub mod repository;
pub mod service;
mod clock;
pub mod mapper;
pub mod laws;
