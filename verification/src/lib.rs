//! The decisions of a small todo-list web service, apart from its I/O.
//!
//! The service keeps its items in an embedded database file and answers four
//! routes. This library holds everything the service decides: in which order
//! the database is asked to do what ([`gateway`]), how the outcome of that work
//! becomes an HTTP reply ([`handlers`]), and what happens at start-up
//! ([`startup`]). Opening the file, running statements and speaking HTTP are
//! left to the program that links this library. What the service expects of
//! the database in turn is written down in [`store`], and [`laws`] holds what
//! follows from all of it.

pub mod decimal;
pub mod gateway;
pub mod laws;
pub mod model;
pub mod startup;
pub mod store;
pub mod handlers;

pub use handlers::{create_todo, delete_todo, fetch_all_todo, index, status_code};
pub use model::{Status, StatusMessage, StatusView, TodoItem, TodoItemView, TodoList};
