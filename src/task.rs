//! A single entry of the task list.
use crate::calendar::Timestamp;
use vstd::prelude::*;

verus! {

/// A to-do item: what to do, whether it is done, and when it is due.
#[derive(Clone, Debug)]
pub struct Task {
    pub description: String,
    pub completed: bool,
    pub deadline: Option<Timestamp>,
}

/// The value a task holds.
pub struct TaskView {
    pub description: Seq<char>,
    pub completed: bool,
    pub deadline: Option<Timestamp>,
}

impl View for Task {
    type V = TaskView;

    open spec fn view(&self) -> TaskView {
        TaskView {
            description: self.description@,
            completed: self.completed,
            deadline: self.deadline,
        }
    }
}

impl Task {
    /// A task that is not completed yet.
    pub fn new(description: String, deadline: Option<Timestamp>) -> (r: Task)
        ensures
            r@ == (TaskView { description: description@, completed: false, deadline }),
    {
        Task { description, completed: false, deadline }
    }

    /// Flips whether the task is completed.
    pub fn toggle_completed(&mut self)
        ensures
            final(self)@ == (TaskView { completed: !old(self).completed, ..old(self)@ }),
    {
        self.completed = !self.completed;
    }
}

} // verus!
