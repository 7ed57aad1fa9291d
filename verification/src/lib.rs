//! Verified core of `plannrs`, a terminal task manager.
//!
//! The crate holds the task data model and the task-entry form's input state
//! machine: how raw field submissions are reduced to state transitions and,
//! on submission, to a finished task appended to the task store. Terminal
//! rendering and event plumbing live outside this crate and only read the
//! state exposed here.

pub mod app;
pub mod date;
pub mod task;
