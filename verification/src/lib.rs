//! The data model and the request logic of a small in-memory todo service:
//! listing a page of the stored todos and creating a todo whose id is new.

pub mod handles;
pub mod laws;
pub mod models;

pub use handles::{todos_create, todos_list, CreateStatus};
pub use models::{Todo, TodoListOptions, BODY_LIMIT};
