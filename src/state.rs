//! The session state: the task list with its selection cursor, the current
//! mode and the text buffers of an add or edit in progress.
use crate::calendar::Timestamp;
use crate::task::{Task, TaskView};
use vstd::prelude::*;

verus! {

/// How key presses are read at the moment.
#[derive(Clone, Copy, Debug, PartialEq, Eq, Structural)]
pub enum Mode {
    Normal,
    Input,
    Edit,
    DeleteConfirm,
    DeadlineInput,
}

/// What confirming a deadline will do with the captured description.
#[derive(Clone, Copy, Debug, PartialEq, Eq, Structural)]
pub enum PendingCommit {
    Add,
    Edit,
}

/// The whole state of one session.
pub struct AppState {
    pub tasks: Vec<Task>,
    pub input: String,
    pub mode: Mode,
    pub selected_task: Option<usize>,
    pub temp_description: String,
    pub pending: PendingCommit,
}

/// The value a session state holds.
pub struct AppView {
    pub tasks: Seq<TaskView>,
    pub input: Seq<char>,
    pub mode: Mode,
    pub selected_task: Option<usize>,
    pub temp_description: Seq<char>,
    pub pending: PendingCommit,
}

impl View for AppState {
    type V = AppView;

    open spec fn view(&self) -> AppView {
        AppView {
            tasks: self.tasks@.map_values(|t: Task| t@),
            input: self.input@,
            mode: self.mode,
            selected_task: self.selected_task,
            temp_description: self.temp_description@,
            pending: self.pending,
        }
    }
}

/// The index of the selected task, if there is a selection and it names a task.
pub open spec fn selected_in_range(s: AppView) -> Option<int> {
    match s.selected_task {
        Some(i) => if i < s.tasks.len() {
            Some(i as int)
        } else {
            None
        },
        None => None,
    }
}

/// A selection is either a task's index or, on an empty list, index 0.
pub open spec fn selection_ok(s: AppView) -> bool {
    s.selected_task matches Some(i) ==> (i < s.tasks.len() || i == 0)
}

/// `i + delta`, held within `0 ..= len - 1` (within `0 ..= 0` when `len` is 0).
pub open spec fn clamp_index(i: int, delta: int, len: int) -> usize {
    let hi: int = if len == 0 { 0 } else { len - 1 };
    let t = i + delta;
    if t < 0 {
        0
    } else if t > hi {
        hi as usize
    } else {
        t as usize
    }
}

/// Appends a task that is not completed.
pub open spec fn spec_add(s: AppView, description: Seq<char>, deadline: Option<Timestamp>) -> AppView {
    AppView {
        tasks: s.tasks.push(TaskView { description, completed: false, deadline }),
        ..s
    }
}

/// Overwrites description and deadline of the selected task, if any.
pub open spec fn spec_update(s: AppView, description: Seq<char>, deadline: Option<Timestamp>) -> AppView {
    match selected_in_range(s) {
        Some(i) => AppView {
            tasks: s.tasks.update(i, TaskView { description, deadline, ..s.tasks[i] }),
            ..s
        },
        None => s,
    }
}

/// Removes the selected task, if any, and holds the selection within the list.
pub open spec fn spec_delete(s: AppView) -> AppView {
    match selected_in_range(s) {
        Some(i) => AppView {
            tasks: s.tasks.remove(i),
            selected_task: Some(clamp_index(i, 0, s.tasks.len() - 1)),
            ..s
        },
        None => s,
    }
}

/// Flips the completed flag of the selected task, if any.
pub open spec fn spec_toggle(s: AppView) -> AppView {
    match selected_in_range(s) {
        Some(i) => AppView {
            tasks: s.tasks.update(i, TaskView { completed: !s.tasks[i].completed, ..s.tasks[i] }),
            ..s
        },
        None => s,
    }
}

/// Moves the selection by `delta`, held within the list.
pub open spec fn spec_move(s: AppView, delta: int) -> AppView {
    match s.selected_task {
        Some(i) => AppView {
            selected_task: Some(clamp_index(i as int, delta, s.tasks.len() as int)),
            ..s
        },
        None => s,
    }
}

impl AppState {
    /// An empty list in Normal mode, with the first position selected.
    pub fn new() -> (r: AppState)
        ensures
            r@.tasks.len() == 0,
            r@.input.len() == 0,
            r@.mode == Mode::Normal,
            r@.selected_task == Some(0usize),
            r@.temp_description.len() == 0,
            r@.pending == PendingCommit::Add,
    {
        AppState {
            tasks: Vec::new(),
            input: String::new(),
            mode: Mode::Normal,
            selected_task: Some(0),
            temp_description: String::new(),
            pending: PendingCommit::Add,
        }
    }

    /// Appends a new, not completed task.
    pub fn add_task(&mut self, description: String, deadline: Option<Timestamp>)
        ensures
            final(self)@ == spec_add(old(self)@, description@, deadline),
    {
        let task = Task::new(description, deadline);
        self.tasks.push(task);
        assert(self@.tasks =~= spec_add(old(self)@, description@, deadline).tasks);
    }

    /// Overwrites the description and deadline of the selected task; does
    /// nothing without a selection that names a task.
    pub fn update_task(&mut self, description: String, deadline: Option<Timestamp>)
        ensures
            final(self)@ == spec_update(old(self)@, description@, deadline),
    {
        if let Some(index) = self.selected_task {
            if index < self.tasks.len() {
                self.tasks[index].description = description;
                self.tasks[index].deadline = deadline;
                assert(self@.tasks =~= spec_update(old(self)@, description@, deadline).tasks);
            }
        }
    }

    /// Removes the selected task, moving the later ones down by one, and
    /// keeps the selection within the list; does nothing without a selection
    /// that names a task.
    pub fn delete_task(&mut self)
        ensures
            final(self)@ == spec_delete(old(self)@),
    {
        if let Some(index) = self.selected_task {
            if index < self.tasks.len() {
                self.tasks.remove(index);
                let len = self.tasks.len();
                if len == 0 {
                    self.selected_task = Some(0);
                } else if index >= len {
                    self.selected_task = Some(len - 1);
                }
                assert(self@.tasks =~= spec_delete(old(self)@).tasks);
            }
        }
    }

    /// Flips the completed flag of the selected task; does nothing without a
    /// selection that names a task.
    pub fn toggle_selected(&mut self)
        ensures
            final(self)@ == spec_toggle(old(self)@),
    {
        if let Some(index) = self.selected_task {
            if index < self.tasks.len() {
                self.tasks[index].toggle_completed();
                assert(self@.tasks =~= spec_toggle(old(self)@).tasks);
            }
        }
    }

    /// Moves the selection by `delta`, held within the list.
    pub fn move_selection(&mut self, delta: i64)
        ensures
            final(self)@ == spec_move(old(self)@, delta as int),
    {
        if let Some(i) = self.selected_task {
            let len = self.tasks.len();
            let hi: usize = if len == 0 { 0 } else { len - 1 };
            let t: i128 = i as i128 + delta as i128;
            let j: usize = if t < 0 {
                0
            } else if t > hi as i128 {
                hi
            } else {
                t as usize
            };
            self.selected_task = Some(j);
        }
    }
}

} // verus!

verus! {

/// A change to the list's structure.
pub enum StoreOp {
    Add(Seq<char>, Option<Timestamp>),
    Delete,
}

/// One structural change applied to `s`.
pub open spec fn apply_op(s: AppView, op: StoreOp) -> AppView {
    match op {
        StoreOp::Add(description, deadline) => spec_add(s, description, deadline),
        StoreOp::Delete => spec_delete(s),
    }
}

/// The state after the operations, applied first to last.
pub open spec fn apply_ops(s: AppView, ops: Seq<StoreOp>) -> AppView
    decreases ops.len(),
{
    if ops.len() == 0 {
        s
    } else {
        apply_op(apply_ops(s, ops.drop_last()), ops.last())
    }
}

/// The state after adding a task for each (description, deadline) pair, in order.
pub open spec fn add_all(s: AppView, items: Seq<(Seq<char>, Option<Timestamp>)>) -> AppView
    decreases items.len(),
{
    if items.len() == 0 {
        s
    } else {
        let prev = add_all(s, items.drop_last());
        spec_add(prev, items.last().0, items.last().1)
    }
}

/// Adding tasks one after another appends one task per call, in call order,
/// each not completed and carrying the given description and deadline.
pub proof fn lemma_adds_append_in_order(s: AppView, items: Seq<(Seq<char>, Option<Timestamp>)>)
    ensures
        add_all(s, items).tasks.len() == s.tasks.len() + items.len(),
        forall|i: int| 0 <= i < s.tasks.len() ==> add_all(s, items).tasks[i] == s.tasks[i],
        forall|i: int|
            0 <= i < items.len() ==> add_all(s, items).tasks[s.tasks.len() + i] == (TaskView {
                description: items[i].0,
                completed: false,
                deadline: items[i].1,
            }),
    decreases items.len(),
{
    if items.len() > 0 {
        lemma_adds_append_in_order(s, items.drop_last());
        let prev = add_all(s, items.drop_last());
        assert forall|i: int| 0 <= i < items.len() implies add_all(s, items).tasks[s.tasks.len()
            + i] == (TaskView { description: items[i].0, completed: false, deadline: items[i].1 }) by {
            if i < items.len() - 1 {
                assert(items.drop_last()[i] == items[i]);
            }
        }
    }
}

/// Deleting with no selection, with a selection past the end, or from an
/// empty list leaves the state as it was.
pub proof fn lemma_delete_without_target(s: AppView)
    requires
        s.tasks.len() == 0 || s.selected_task is None || s.selected_task->0 >= s.tasks.len(),
    ensures
        spec_delete(s) == s,
{
}

/// From a state with a selection that names a task (or position 0 of an
/// empty list), any sequence of adds and deletes keeps it so: whenever the
/// list is not empty, the selection is one of its indices.
pub proof fn lemma_structural_ops_keep_selection(s: AppView, ops: Seq<StoreOp>)
    requires
        selection_ok(s),
        s.selected_task is Some,
    ensures
        selection_ok(apply_ops(s, ops)),
        apply_ops(s, ops).selected_task matches Some(i) && (apply_ops(s, ops).tasks.len() > 0
            ==> i < apply_ops(s, ops).tasks.len()),
    decreases ops.len(),
{
    if ops.len() > 0 {
        lemma_structural_ops_keep_selection(s, ops.drop_last());
    }
}

/// Toggling the completed flag of the selected task twice restores the state.
pub proof fn lemma_toggle_twice(s: AppView)
    ensures
        spec_toggle(spec_toggle(s)) == s,
{
    if let Some(i) = selected_in_range(s) {
        assert(spec_toggle(spec_toggle(s)).tasks =~= s.tasks);
    }
}

} // verus!
