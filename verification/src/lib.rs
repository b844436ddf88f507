//! A small to-do list: an ordered store of tasks that can be extended, listed,
//! marked complete and purged, and that is kept as a JSON document between
//! runs.
//!
//! Every operation states what it does to the sequence of tasks that the store
//! holds, and Verus proves the statements. The one thing taken on trust is
//! `serde_json`: what it reads from a text and writes for a value is named,
//! not proved (see [`json`]). Files are not touched here: [`TodoDb::load`]
//! takes the bytes that were read, [`TodoDb::save`] gives the bytes to write.

pub mod commands;
pub mod document;
pub mod error;
pub mod json;
pub mod listing;
pub mod task;
pub mod todo_db;

pub use error::{StoreError, TaskError};
pub use task::{Task, TaskView};
pub use todo_db::TodoDb;
