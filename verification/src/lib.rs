//! Personal productivity data: tasks, memos, a reading log and calendar
//! events, together with the rule that decides when a due-date reminder
//! fires.
//!
//! Every collection is an ordered vector held in [`state::AppState`]; each
//! command in [`commands`] is a function from the state before to the state
//! after, with a contract over the mathematical views of the data. The
//! reminder rule lives in [`notification`], the scan that applies it to
//! every task in [`scheduler`], the rows under which entities are stored in
//! [`storage`]. Reading the clock, drawing identifiers and what the `chrono`
//! and `serde_json` crates compute stand behind the few functions whose
//! documentation says that they are trusted.

pub mod calendar;
pub mod clock;
pub mod collection;
pub mod commands;
pub mod ident;
pub mod mail;
pub mod memo;
pub mod notification;
pub mod reading_memo;
pub mod report;
pub mod scheduler;
pub mod settings;
pub mod state;
pub mod storage;
pub mod task;
pub mod text;
