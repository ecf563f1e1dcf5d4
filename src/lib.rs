//! A small task tracker: tasks with one level of subtasks, positional ids,
//! cascading completion, the lines each command prints, and where the task file
//! lives.
pub mod ops;
pub mod storage;
pub mod task;
pub mod tasklist;
pub mod text;

pub use storage::{default_path_for, get_default_path, tasks_file};
pub use task::TaskJson;
pub use tasklist::{SubtaskCommands, TaskCommands, TaskList};
