
pub mod board;
pub mod laws;
pub mod task;

pub use board::{Message, TaskEntry, TodoApplication};
pub use task::{Task, TaskMessage, TaskStatus};
