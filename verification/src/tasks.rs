//! Tasks, their categories, the in-memory task store and its persistence.

pub mod category;
pub mod storage;
pub mod task;
pub mod task_list;
pub mod text;
