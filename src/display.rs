//! What the screen shows of a state: the prompt for the current mode and the
//! style of each task line.
use crate::calendar::Timestamp;
use crate::state::{AppState, Mode};
use crate::task::Task;
use vstd::prelude::*;
use vstd::string::StringExecFns;

verus! {

/// How a task line is drawn.
#[derive(Clone, Copy, Debug, PartialEq, Eq, Structural)]
pub enum TaskStyle {
    /// Past its deadline and not completed.
    Overdue,
    /// Completed, and not the selected line.
    Completed,
    /// The selected line.
    Selected,
    Plain,
}

/// `a` comes strictly before `b`.
pub open spec fn earlier(a: Timestamp, b: Timestamp) -> bool {
    if a.date.year != b.date.year {
        a.date.year < b.date.year
    } else if a.date.month != b.date.month {
        a.date.month < b.date.month
    } else if a.date.day != b.date.day {
        a.date.day < b.date.day
    } else if a.hour != b.hour {
        a.hour < b.hour
    } else if a.minute != b.minute {
        a.minute < b.minute
    } else {
        a.second < b.second
    }
}

/// Whether `a` comes strictly before `b`.
pub fn is_earlier(a: Timestamp, b: Timestamp) -> (r: bool)
    ensures
        r == earlier(a, b),
{
    if a.date.year != b.date.year {
        a.date.year < b.date.year
    } else if a.date.month != b.date.month {
        a.date.month < b.date.month
    } else if a.date.day != b.date.day {
        a.date.day < b.date.day
    } else if a.hour != b.hour {
        a.hour < b.hour
    } else if a.minute != b.minute {
        a.minute < b.minute
    } else {
        a.second < b.second
    }
}

pub open spec fn style_of(
    completed: bool,
    deadline: Option<Timestamp>,
    is_selected: bool,
    now: Timestamp,
) -> TaskStyle {
    if deadline matches Some(d) && earlier(d, now) && !completed {
        TaskStyle::Overdue
    } else if completed && !is_selected {
        TaskStyle::Completed
    } else if is_selected {
        TaskStyle::Selected
    } else {
        TaskStyle::Plain
    }
}

/// The style of the task at `index`, given the selection and the time `now`.
pub fn task_style(task: &Task, index: usize, selected: Option<usize>, now: Timestamp) -> (r:
    TaskStyle)
    ensures
        r == style_of(task.completed, task.deadline, selected == Some(index), now),
{
    let is_selected = match selected {
        Some(i) => i == index,
        None => false,
    };
    let is_overdue = match task.deadline {
        Some(d) => is_earlier(d, now) && !task.completed,
        None => false,
    };
    if is_overdue {
        TaskStyle::Overdue
    } else if task.completed && !is_selected {
        TaskStyle::Completed
    } else if is_selected {
        TaskStyle::Selected
    } else {
        TaskStyle::Plain
    }
}

/// The title and the text of the prompt panel in mode `mode` with the text
/// buffer `input`.
pub open spec fn prompt_of(mode: Mode, input: Seq<char>) -> (Seq<char>, Seq<char>) {
    match mode {
        Mode::Input => ("Input"@, "Input Mode: "@ + input),
        Mode::Edit => ("Edit"@, "Editing: "@ + input),
        Mode::DeleteConfirm => (
            "Delete"@,
            "Press 'd' again to confirm deletion, or any other key to cancel."@,
        ),
        Mode::DeadlineInput => ("Select Deadline"@, "1: Today, 2: Tomorrow, 3: This Week, 4: This Month"@),
        Mode::Normal => ("Input"@, "Press 'n' to add a task"@),
    }
}

impl AppState {
    /// The title and the text of the prompt panel for the current mode.
    pub fn prompt(&self) -> (r: (String, String))
        ensures
            (r.0@, r.1@) == prompt_of(self.mode, self.input@),
    {
        match self.mode {
            Mode::Input => (
                <String as StringExecFns>::from_str("Input"),
                <String as StringExecFns>::from_str("Input Mode: ").concat(self.input.as_str()),
            ),
            Mode::Edit => (
                <String as StringExecFns>::from_str("Edit"),
                <String as StringExecFns>::from_str("Editing: ").concat(self.input.as_str()),
            ),
            Mode::DeleteConfirm => (
                <String as StringExecFns>::from_str("Delete"),
                <String as StringExecFns>::from_str(
                    "Press 'd' again to confirm deletion, or any other key to cancel.",
                ),
            ),
            Mode::DeadlineInput => (
                <String as StringExecFns>::from_str("Select Deadline"),
                <String as StringExecFns>::from_str(
                    "1: Today, 2: Tomorrow, 3: This Week, 4: This Month",
                ),
            ),
            Mode::Normal => (
                <String as StringExecFns>::from_str("Input"),
                <String as StringExecFns>::from_str("Press 'n' to add a task"),
            ),
        }
    }

    /// The style of each task line, in list order, at the time `now`.
    pub fn task_styles(&self, now: Timestamp) -> (r: Vec<TaskStyle>)
        ensures
            r@.len() == self.tasks@.len(),
            forall|i: int|
                0 <= i < r@.len() ==> #[trigger] r@[i] == style_of(
                    self.tasks@[i].completed,
                    self.tasks@[i].deadline,
                    self.selected_task == Some(i as usize),
                    now,
                ),
    {
        let mut out: Vec<TaskStyle> = Vec::new();
        let mut i: usize = 0;
        while i < self.tasks.len()
            invariant
                i <= self.tasks@.len(),
                out@.len() == i,
                forall|j: int|
                    0 <= j < i ==> #[trigger] out@[j] == style_of(
                        self.tasks@[j].completed,
                        self.tasks@[j].deadline,
                        self.selected_task == Some(j as usize),
                        now,
                    ),
            decreases self.tasks@.len() - i,
        {
            let s = task_style(&self.tasks[i], i, self.selected_task, now);
            out.push(s);
            i += 1;
        }
        out
    }
}

} // verus!
