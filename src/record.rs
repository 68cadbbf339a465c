//! The flat records that the task list is saved as and loaded from, with
//! deadlines written as "YYYY-MM-DD HH:MM:SS".
use crate::calendar::{Date, Timestamp};
use crate::state::{AppState, AppView};
use crate::task::{Task, TaskView};
use chrono::Datelike;
use chrono::Timelike;
use vstd::prelude::*;

verus! {

/// The layout of a deadline in a saved record.
pub const TIMESTAMP_FORMAT: &'static str = "%Y-%m-%d %H:%M:%S";

/// One saved task.
#[derive(Clone, Debug)]
pub struct TaskRecord {
    pub description: String,
    pub completed: bool,
    pub deadline: Option<String>,
}

/// The value a saved task holds.
pub struct RecordView {
    pub description: Seq<char>,
    pub completed: bool,
    pub deadline: Option<Seq<char>>,
}

impl View for TaskRecord {
    type V = RecordView;

    open spec fn view(&self) -> RecordView {
        RecordView {
            description: self.description@,
            completed: self.completed,
            deadline: match self.deadline {
                Some(s) => Some(s@),
                None => None,
            },
        }
    }
}

/// The decimal digit of `n`'s last place.
pub open spec fn digit(n: int) -> char {
    seq!['0', '1', '2', '3', '4', '5', '6', '7', '8', '9'][n % 10]
}

/// `n` in two decimal digits, for `n` below 100.
pub open spec fn two_digits(n: int) -> Seq<char> {
    seq![digit(n / 10), digit(n)]
}

/// `n` in four decimal digits, for `n` below 10000.
pub open spec fn four_digits(n: int) -> Seq<char> {
    seq![digit(n / 1000), digit(n / 100), digit(n / 10), digit(n)]
}

/// `t` written as "YYYY-MM-DD HH:MM:SS", for a year from 0 to 9999.
pub open spec fn timestamp_text(t: Timestamp) -> Seq<char> {
    four_digits(t.date.year as int) + seq!['-'] + two_digits(t.date.month as int) + seq!['-']
        + two_digits(t.date.day as int) + seq![' '] + two_digits(t.hour as int) + seq![':']
        + two_digits(t.minute as int) + seq![':'] + two_digits(t.second as int)
}

/// A valid timestamp whose year has four digits.
pub open spec fn writable(t: Timestamp) -> bool {
    t.valid() && 0 <= t.date.year <= 9999
}

/// The text is how some writable timestamp is written.
pub open spec fn is_timestamp_text(s: Seq<char>) -> bool {
    exists|t: Timestamp| writable(t) && s == #[trigger] timestamp_text(t)
}

/// Relies on chrono's `NaiveDateTime::format` with the "%Y-%m-%d %H:%M:%S"
/// layout: years from 0 to 9999 in four zero-padded digits, the other fields
/// in two.
#[verifier::external_body]
fn format_timestamp(t: Timestamp) -> (r: String)
    ensures
        writable(t) ==> r@ == timestamp_text(t),
{
    match chrono::NaiveDate::from_ymd_opt(t.date.year, t.date.month, t.date.day) {
        Some(d) => match d.and_hms_opt(t.hour, t.minute, t.second) {
            Some(x) => x.format(TIMESTAMP_FORMAT).to_string(),
            None => String::new(),
        },
        None => String::new(),
    }
}

/// Relies on chrono's `NaiveDateTime::parse_from_str` with the
/// "%Y-%m-%d %H:%M:%S" layout: it reads back what that layout writes, and
/// what it accepts is an existing date and time of day.
#[verifier::external_body]
fn parse_timestamp(s: &str) -> (r: Option<Timestamp>)
    ensures
        r matches Some(t) ==> t.valid(),
        forall|t: Timestamp| writable(t) && s@ == #[trigger] timestamp_text(t) ==> r == Some(t),
{
    match chrono::NaiveDateTime::parse_from_str(s, TIMESTAMP_FORMAT) {
        Ok(x) => Some(
            Timestamp {
                date: Date { year: x.year(), month: x.month(), day: x.day() },
                hour: x.hour(),
                minute: x.minute(),
                second: x.second(),
            },
        ),
        Err(_) => None,
    }
}

/// The tasks that are not completed, in list order.
pub open spec fn unfinished(tasks: Seq<TaskView>) -> Seq<TaskView>
    decreases tasks.len(),
{
    if tasks.len() == 0 {
        tasks
    } else if tasks.last().completed {
        unfinished(tasks.drop_last())
    } else {
        unfinished(tasks.drop_last()).push(tasks.last())
    }
}

/// `r` is how the task `t` is saved.
pub open spec fn saved_as(t: TaskView, r: RecordView) -> bool {
    &&& r.description == t.description
    &&& r.completed == t.completed
    &&& (r.deadline is None <==> t.deadline is None)
    &&& (t.deadline matches Some(d) ==> (writable(d) ==> r.deadline == Some(timestamp_text(d))))
}

/// `t` is what the record `r` loads as.
pub open spec fn loaded_as(r: RecordView, t: TaskView) -> bool {
    &&& t.description == r.description
    &&& t.completed == r.completed
    &&& (t.deadline is None <==> r.deadline is None)
    &&& (t.deadline matches Some(d) ==> d.valid())
    &&& (forall|d: Timestamp|
        writable(d) && r.deadline == Some(#[trigger] timestamp_text(d)) ==> t.deadline == Some(d))
}

/// Every deadline of the records is written in the saved layout.
pub open spec fn deadlines_readable(records: Seq<RecordView>) -> bool {
    forall|i: int|
        0 <= i < records.len() ==> (#[trigger] records[i].deadline matches Some(s)
            ==> is_timestamp_text(s))
}

/// How the task `t` is saved.
pub fn task_to_record(t: &Task) -> (r: TaskRecord)
    ensures
        saved_as(t@, r@),
{
    let deadline = match t.deadline {
        Some(d) => Some(format_timestamp(d)),
        None => None,
    };
    TaskRecord { description: t.description.clone(), completed: t.completed, deadline }
}

/// What the record `r` loads as; `None` where its deadline cannot be read.
pub fn record_to_task(r: &TaskRecord) -> (t: Option<Task>)
    ensures
        t matches Some(x) ==> loaded_as(r@, x@),
        (r@.deadline matches Some(s) ==> is_timestamp_text(s)) ==> t is Some,
{
    let deadline = match &r.deadline {
        Some(s) => match parse_timestamp(s.as_str()) {
            Some(d) => Some(d),
            None => {
                return None;
            },
        },
        None => None,
    };
    Some(Task { description: r.description.clone(), completed: r.completed, deadline })
}

/// Loads the records in order; `None` where a deadline cannot be read.
pub fn tasks_from_records(records: &Vec<TaskRecord>) -> (r: Option<Vec<Task>>)
    ensures
        r matches Some(v) ==> v@.len() == records@.len() && forall|i: int|
            0 <= i < v@.len() ==> loaded_as(#[trigger] records@[i]@, v@[i]@),
        deadlines_readable(records@.map_values(|x: TaskRecord| x@)) ==> r is Some,
{
    let ghost views = records@.map_values(|x: TaskRecord| x@);
    let mut out: Vec<Task> = Vec::new();
    let mut i: usize = 0;
    while i < records.len()
        invariant
            i <= records@.len(),
            views == records@.map_values(|x: TaskRecord| x@),
            out@.len() == i,
            forall|j: int| 0 <= j < i ==> loaded_as(#[trigger] records@[j]@, out@[j]@),
        decreases records@.len() - i,
    {
        proof {
            if deadlines_readable(views) {
                assert(views[i as int] == records@[i as int]@);
            }
        }
        match record_to_task(&records[i]) {
            Some(t) => out.push(t),
            None => {
                return None;
            },
        }
        i += 1;
    }
    Some(out)
}

impl AppState {
    /// The records to save: one per task that is not completed, in list order.
    pub fn save_records(&self) -> (r: Vec<TaskRecord>)
        ensures
            r@.len() == unfinished(self@.tasks).len(),
            forall|i: int|
                0 <= i < r@.len() ==> saved_as(unfinished(self@.tasks)[i], #[trigger] r@[i]@),
    {
        let ghost all = self@.tasks;
        let mut out: Vec<TaskRecord> = Vec::new();
        let mut i: usize = 0;
        while i < self.tasks.len()
            invariant
                i <= self.tasks@.len(),
                all == self@.tasks,
                out@.len() == unfinished(all.take(i as int)).len(),
                forall|j: int|
                    0 <= j < out@.len() ==> saved_as(
                        unfinished(all.take(i as int))[j],
                        #[trigger] out@[j]@,
                    ),
            decreases self.tasks@.len() - i,
        {
            assert(all.take(i + 1).drop_last() =~= all.take(i as int));
            assert(all.take(i + 1).last() == self.tasks@[i as int]@);
            if !self.tasks[i].completed {
                let rec = task_to_record(&self.tasks[i]);
                out.push(rec);
            }
            i += 1;
        }
        assert(all.take(i as int) =~= all);
        out
    }

    /// Replaces the list with the loaded records and returns true; where a
    /// deadline cannot be read, leaves the state as it was and returns false.
    pub fn load_records(&mut self, records: &Vec<TaskRecord>) -> (ok: bool)
        ensures
            ok ==> final(self)@.tasks.len() == records@.len() && forall|i: int|
                0 <= i < records@.len() ==> loaded_as(
                    #[trigger] records@[i]@,
                    final(self)@.tasks[i],
                ),
            ok ==> (AppView { tasks: old(self)@.tasks, ..final(self)@ }) == old(self)@,
            !ok ==> final(self)@ == old(self)@,
            deadlines_readable(records@.map_values(|x: TaskRecord| x@)) ==> ok,
    {
        match tasks_from_records(records) {
            Some(v) => {
                self.tasks = v;
                true
            },
            None => false,
        }
    }
}

/// Every task kept for saving is a task of the list that is not completed.
proof fn lemma_unfinished_from_list(tasks: Seq<TaskView>)
    ensures
        forall|i: int|
            0 <= i < unfinished(tasks).len() ==> !(#[trigger] unfinished(tasks)[i]).completed
                && exists|j: int| 0 <= j < tasks.len() && tasks[j] == unfinished(tasks)[i],
    decreases tasks.len(),
{
    if tasks.len() > 0 {
        let init = tasks.drop_last();
        lemma_unfinished_from_list(init);
        assert forall|i: int| 0 <= i < unfinished(tasks).len() implies !(
        #[trigger] unfinished(tasks)[i]).completed && exists|j: int|
            0 <= j < tasks.len() && tasks[j] == unfinished(tasks)[i] by {
            if i < unfinished(init).len() {
                let j = choose|j: int| 0 <= j < init.len() && init[j] == unfinished(init)[i];
                assert(tasks[j] == unfinished(tasks)[i]);
            } else {
                assert(tasks[tasks.len() - 1] == unfinished(tasks)[i]);
            }
        }
    }
}

/// Saving a list and loading the saved records back gives the tasks that
/// were not completed, in list order, when every deadline has a four-digit
/// year: the load succeeds, and whatever it loads is exactly those tasks.
pub proof fn lemma_save_then_load(
    tasks: Seq<TaskView>,
    records: Seq<RecordView>,
    loaded: Seq<TaskView>,
)
    requires
        forall|i: int|
            0 <= i < tasks.len() ==> (#[trigger] tasks[i].deadline matches Some(d) ==> writable(d)),
        records.len() == unfinished(tasks).len(),
        forall|i: int| 0 <= i < records.len() ==> saved_as(unfinished(tasks)[i], #[trigger] records[i]),
    ensures
        deadlines_readable(records),
        loaded.len() == records.len() && (forall|i: int|
            0 <= i < records.len() ==> loaded_as(#[trigger] records[i], loaded[i]))
            ==> loaded == unfinished(tasks),
{
    lemma_unfinished_from_list(tasks);
    let kept = unfinished(tasks);
    assert forall|i: int| 0 <= i < records.len() implies (#[trigger] records[i].deadline matches Some(
        s,
    ) ==> is_timestamp_text(s)) by {
        let j = choose|j: int| 0 <= j < tasks.len() && tasks[j] == kept[i];
        assert(saved_as(kept[i], records[i]));
        if let Some(d) = kept[i].deadline {
            assert(tasks[j].deadline == Some(d));
            assert(writable(d));
            assert(records[i].deadline == Some(timestamp_text(d)));
        }
    }
    if loaded.len() == records.len() && (forall|i: int|
        0 <= i < records.len() ==> loaded_as(#[trigger] records[i], loaded[i])) {
        assert forall|i: int| 0 <= i < loaded.len() implies loaded[i] == kept[i] by {
            let j = choose|j: int| 0 <= j < tasks.len() && tasks[j] == kept[i];
            assert(saved_as(kept[i], records[i]));
            assert(loaded_as(records[i], loaded[i]));
            if let Some(d) = kept[i].deadline {
                assert(tasks[j].deadline == Some(d));
                assert(writable(d));
                assert(records[i].deadline == Some(timestamp_text(d)));
            }
        }
        assert(loaded =~= kept);
    }
}

} // verus!
