//! A keyboard-driven task list: the task store, the deadline shortcuts and the
//! mode machine that turns key presses into edits of the store.
pub mod calendar;
pub mod deadline;
pub mod display;
pub mod machine;
pub mod record;
pub mod state;
pub mod task;
mod text;

pub use calendar::{midnight, Date, Timestamp};
pub use deadline::{calculate_deadline, resolve_deadline};
pub use display::{is_earlier, task_style, TaskStyle};
pub use machine::{process_key_event, process_key_event_on, Key};
pub use record::{record_to_task, task_to_record, tasks_from_records, TaskRecord};
pub use state::{AppState, Mode, PendingCommit};
pub use task::Task;
