//! The task entity: one schedulable unit of work.

use crate::date::DueDate;
use vstd::prelude::*;

verus! {

/// Spec-level image of a task: its field contents as mathematical values.
#[verifier::ext_equal]
pub struct TaskView {
    pub title: Seq<char>,
    pub description: Seq<char>,
    pub is_complete: bool,
    pub due_date: Option<DueDate>,
}

/// A task that may be registered in lists within the application: a title,
/// a free-form description, a completion flag and an optional due date.
#[derive(Debug)]
pub struct Task {
    pub title: String,
    pub description: String,
    pub is_complete: bool,
    pub due_date: Option<DueDate>,
}

impl DeepView for Task {
    type V = TaskView;

    open spec fn deep_view(&self) -> TaskView {
        TaskView {
            title: self.title@,
            description: self.description@,
            is_complete: self.is_complete,
            due_date: self.due_date,
        }
    }
}

impl Task {
    /// Creates a task value. This is not registration of the task in any
    /// list; the caller inserts the result where it is wanted.
    ///
    /// A newly created task starts incomplete: completion records work done,
    /// and none has been done at creation time.
    pub fn new(title: String, description: String, due_date: Option<DueDate>) -> (r: Self)
        ensures
            r.deep_view() == (TaskView {
                title: title@,
                description: description@,
                is_complete: false,
                due_date,
            }),
    {
        Self { title, description, is_complete: false, due_date }
    }
}

} // verus!
