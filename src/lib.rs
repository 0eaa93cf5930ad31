//! A small task tracker: an ordered store of tasks with monotonic ids,
//! positional addressing for completion and removal, and due dates pinned
//! to a fixed UTC+5:30 offset.
pub mod due_date;
pub mod laws;
pub mod manager;
pub mod task;
pub mod text;
