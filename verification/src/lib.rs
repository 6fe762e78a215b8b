//! A keyboard-driven task list: the task store, the screen state machine and
//! the key dispatcher, with tasks persisted through SQLite.

pub mod tasks;
pub mod tui;
