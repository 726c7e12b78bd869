//! The commands: each takes the state, changes one kind of entity and hands
//! back a fresh copy of that kind's whole collection.

pub mod calendar_commands;
pub mod memo_commands;
pub mod reading_commands;
pub mod task_commands;
