//! A small todo-list store: the task records, the in-memory database with its
//! unsaved-changes flag, the byte image of a list, and the decisions around the
//! crash-safe replacement of the backing file.

pub mod args;
pub mod calendar;
pub mod codec;
pub mod commands;
pub mod db;
pub mod storage;
pub mod text;
pub mod todo;
