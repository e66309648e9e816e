//! An interactive to-do list: a store of tasks with completion and
//! soft-delete flags, and an interpreter for line commands over it.
pub mod command;
pub mod laws;
pub mod parse;
pub mod store;
pub mod todo;
