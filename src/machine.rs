//! The mode machine: one key press, read according to the current mode,
//! becomes an edit of the session state.
use crate::calendar::{local_today, Date};
use crate::deadline::{deadline_for, resolve_deadline};
use crate::state::{
    selected_in_range, spec_add, spec_delete, spec_move, spec_toggle, spec_update, AppState,
    AppView, Mode, PendingCommit,
};
use vstd::prelude::*;
use vstd::string::StringExecFns;

verus! {

/// A key press, as far as the task list tells keys apart.
#[derive(Clone, Copy, Debug, PartialEq, Eq, Structural)]
pub enum Key {
    Char(char),
    Enter,
    Backspace,
    Esc,
    Up,
    Down,
    Other,
}

/// The deadline keyword that a digit key picks, if any.
pub open spec fn keyword_of_digit(c: char) -> Option<Seq<char>> {
    if c == '1' {
        Some("Today"@)
    } else if c == '2' {
        Some("Tomorrow"@)
    } else if c == '3' {
        Some("This Week"@)
    } else if c == '4' {
        Some("This Month"@)
    } else {
        None
    }
}

/// Leaves an add or edit without changing the list.
pub open spec fn abandon_commit(s: AppView) -> AppView {
    AppView { mode: Mode::Normal, temp_description: Seq::empty(), ..s }
}

/// Carries out an add or edit with the deadline that the chosen keyword gives.
pub open spec fn confirm_commit(s: AppView, today: Date) -> AppView {
    let deadline = deadline_for(s.input, today);
    let t = AppView { mode: Mode::Normal, temp_description: Seq::empty(), ..s };
    match s.pending {
        PendingCommit::Edit => spec_update(t, s.temp_description, deadline),
        PendingCommit::Add => spec_add(t, s.temp_description, deadline),
    }
}

/// A key press in Normal mode.
pub open spec fn normal_step(s: AppView, key: Key) -> AppView {
    match key {
        Key::Char(c) => if c == 'n' {
            AppView { mode: Mode::Input, input: Seq::empty(), ..s }
        } else if c == 'd' && s.selected_task is Some {
            AppView { mode: Mode::DeleteConfirm, ..s }
        } else if c == 'e' && selected_in_range(s) is Some {
            AppView {
                mode: Mode::Edit,
                input: s.tasks[selected_in_range(s)->0].description,
                ..s
            }
        } else if c == 'c' {
            spec_toggle(s)
        } else {
            s
        },
        Key::Up => spec_move(s, -1),
        Key::Down => spec_move(s, 1),
        _ => s,
    }
}

/// A key press while a description is typed (Input or Edit mode).
pub open spec fn text_entry_step(s: AppView, key: Key) -> AppView {
    match key {
        Key::Enter => AppView {
            temp_description: s.input,
            input: Seq::empty(),
            mode: Mode::DeadlineInput,
            pending: if s.mode == Mode::Edit {
                PendingCommit::Edit
            } else {
                PendingCommit::Add
            },
            ..s
        },
        Key::Char(c) => AppView { input: s.input.push(c), ..s },
        Key::Backspace => AppView {
            input: if s.input.len() > 0 {
                s.input.drop_last()
            } else {
                s.input
            },
            ..s
        },
        _ => s,
    }
}

/// A key press at the deadline prompt.
pub open spec fn deadline_step(s: AppView, key: Key, today: Date) -> AppView {
    match key {
        Key::Char(c) => if keyword_of_digit(c) is Some {
            AppView { input: keyword_of_digit(c)->0, ..s }
        } else if c == 'q' {
            abandon_commit(s)
        } else {
            s
        },
        Key::Esc => abandon_commit(s),
        Key::Enter => confirm_commit(s, today),
        _ => s,
    }
}

/// The state after `key` is pressed in state `s` on the day `today`.
pub open spec fn next_state(s: AppView, key: Key, today: Date) -> AppView {
    match s.mode {
        Mode::Normal => normal_step(s, key),
        Mode::DeleteConfirm => if key == Key::Char('d') {
            AppView { mode: Mode::Normal, ..spec_delete(s) }
        } else {
            AppView { mode: Mode::Normal, ..s }
        },
        Mode::Input | Mode::Edit => text_entry_step(s, key),
        Mode::DeadlineInput => deadline_step(s, key, today),
    }
}

/// Whether the session goes on after `key` is pressed in state `s`.
pub open spec fn keeps_running(s: AppView, key: Key) -> bool {
    !(s.mode == Mode::Normal && key == Key::Char('q'))
}

/// Handles one key press, resolving a chosen deadline against `today`;
/// returns false when the session is to end.
pub fn process_key_event_on(key: Key, app_state: &mut AppState, today: Date) -> (r: bool)
    requires
        today.valid(),
    ensures
        final(app_state)@ == next_state(old(app_state)@, key, today),
        r == keeps_running(old(app_state)@, key),
{
    match app_state.mode {
        Mode::Normal => match key {
            Key::Char('q') => {
                return false;
            },
            Key::Char('n') => {
                app_state.mode = Mode::Input;
                app_state.input.clear();
            },
            Key::Char('d') => {
                if app_state.selected_task.is_some() {
                    app_state.mode = Mode::DeleteConfirm;
                }
            },
            Key::Char('e') => {
                if let Some(i) = app_state.selected_task {
                    if i < app_state.tasks.len() {
                        app_state.mode = Mode::Edit;
                        app_state.input = app_state.tasks[i].description.clone();
                    }
                }
            },
            Key::Char('c') => {
                app_state.toggle_selected();
            },
            Key::Up => {
                app_state.move_selection(-1);
            },
            Key::Down => {
                app_state.move_selection(1);
            },
            _ => {},
        },
        Mode::DeleteConfirm => {
            if key == Key::Char('d') {
                app_state.delete_task();
            }
            app_state.mode = Mode::Normal;
        },
        Mode::Input | Mode::Edit => match key {
            Key::Enter => {
                app_state.pending =
                    if app_state.mode == Mode::Edit {
                        PendingCommit::Edit
                    } else {
                        PendingCommit::Add
                    };
                let mut taken = String::new();
                std::mem::swap(&mut taken, &mut app_state.input);
                app_state.temp_description = taken;
                app_state.mode = Mode::DeadlineInput;
            },
            Key::Char(c) => {
                app_state.input.push(c);
            },
            Key::Backspace => {
                app_state.input.pop();
            },
            _ => {},
        },
        Mode::DeadlineInput => match key {
            Key::Char('1') => {
                app_state.input = <String as StringExecFns>::from_str("Today");
            },
            Key::Char('2') => {
                app_state.input = <String as StringExecFns>::from_str("Tomorrow");
            },
            Key::Char('3') => {
                app_state.input = <String as StringExecFns>::from_str("This Week");
            },
            Key::Char('4') => {
                app_state.input = <String as StringExecFns>::from_str("This Month");
            },
            Key::Char('q') | Key::Esc => {
                app_state.mode = Mode::Normal;
                app_state.temp_description.clear();
            },
            Key::Enter => {
                let deadline = resolve_deadline(app_state.input.as_str(), today);
                let mut description = String::new();
                std::mem::swap(&mut description, &mut app_state.temp_description);
                app_state.mode = Mode::Normal;
                match app_state.pending {
                    PendingCommit::Edit => app_state.update_task(description, deadline),
                    PendingCommit::Add => app_state.add_task(description, deadline),
                }
            },
            _ => {},
        },
    }
    true
}

/// Handles one key press, resolving a chosen deadline against today's date
/// on the local clock; returns false when the session is to end.
pub fn process_key_event(key: Key, app_state: &mut AppState) -> (r: bool)
    ensures
        exists|today: Date|
            today.valid() && #[trigger] next_state(old(app_state)@, key, today) == final(app_state)@,
        r == keeps_running(old(app_state)@, key),
{
    let today = local_today();
    process_key_event_on(key, app_state, today)
}

/// The state after the keys are pressed in order, first to last.
pub open spec fn run_keys(s: AppView, keys: Seq<Key>, today: Date) -> AppView
    decreases keys.len(),
{
    if keys.len() == 0 {
        s
    } else {
        next_state(run_keys(s, keys.drop_last(), today), keys.last(), today)
    }
}

/// The list and the selection of `a` and `b` are the same.
pub open spec fn same_list(a: AppView, b: AppView) -> bool {
    a.tasks == b.tasks && a.selected_task == b.selected_task
}

proof fn lemma_run_keys_split(s: AppView, a: Seq<Key>, b: Seq<Key>, today: Date)
    ensures
        run_keys(s, a + b, today) == run_keys(run_keys(s, a, today), b, today),
    decreases b.len(),
{
    if b.len() == 0 {
        assert(a + b =~= a);
    } else {
        assert((a + b).drop_last() =~= a + b.drop_last());
        assert((a + b).last() == b.last());
        lemma_run_keys_split(s, a, b.drop_last(), today);
    }
}

proof fn lemma_typing_keeps_list(s: AppView, typed: Seq<Key>, today: Date)
    requires
        s.mode == Mode::Input || s.mode == Mode::Edit,
        forall|i: int| 0 <= i < typed.len() ==> typed[i] != Key::Enter,
    ensures
        run_keys(s, typed, today).mode == s.mode,
        same_list(run_keys(s, typed, today), s),
    decreases typed.len(),
{
    if typed.len() > 0 {
        lemma_typing_keeps_list(s, typed.drop_last(), today);
        assert(typed.last() == typed[typed.len() - 1]);
    }
}

proof fn lemma_picking_keeps_list(s: AppView, picks: Seq<Key>, today: Date)
    requires
        s.mode == Mode::DeadlineInput,
        forall|i: int|
            0 <= i < picks.len() ==> picks[i] != Key::Enter && picks[i] != Key::Esc && picks[i]
                != Key::Char('q'),
    ensures
        run_keys(s, picks, today).mode == Mode::DeadlineInput,
        same_list(run_keys(s, picks, today), s),
    decreases picks.len(),
{
    if picks.len() > 0 {
        lemma_picking_keeps_list(s, picks.drop_last(), today);
        assert(picks.last() == picks[picks.len() - 1]);
    }
}

/// Abandoning an add or an edit at the deadline prompt, with `q` or Escape,
/// leaves the list and the selection as they were before `n` or `e` was
/// pressed, whatever was typed and whichever keywords were picked, and
/// returns to Normal mode.
pub proof fn lemma_abandon_keeps_list(
    s: AppView,
    start: Key,
    typed: Seq<Key>,
    picks: Seq<Key>,
    quit: Key,
    today: Date,
)
    requires
        s.mode == Mode::Normal,
        start == Key::Char('n') || (start == Key::Char('e') && selected_in_range(s) is Some),
        forall|i: int| 0 <= i < typed.len() ==> typed[i] != Key::Enter,
        forall|i: int|
            0 <= i < picks.len() ==> picks[i] != Key::Enter && picks[i] != Key::Esc && picks[i]
                != Key::Char('q'),
        quit == Key::Char('q') || quit == Key::Esc,
    ensures
        same_list(run_keys(s, seq![start] + typed + seq![Key::Enter] + picks + seq![quit], today), s),
        run_keys(s, seq![start] + typed + seq![Key::Enter] + picks + seq![quit], today).mode
            == Mode::Normal,
{
    let k1 = seq![start];
    let k2 = k1 + typed;
    let k3 = k2 + seq![Key::Enter];
    let k4 = k3 + picks;
    let k5 = k4 + seq![quit];
    assert(k1.drop_last() =~= Seq::<Key>::empty());
    assert(run_keys(s, k1.drop_last(), today) == s);
    assert(k1.last() == start);
    let s1 = run_keys(s, k1, today);
    lemma_run_keys_split(s, k1, typed, today);
    lemma_typing_keeps_list(s1, typed, today);
    let s2 = run_keys(s, k2, today);
    assert(k3.drop_last() =~= k2);
    let s3 = run_keys(s, k3, today);
    assert(s3.mode == Mode::DeadlineInput);
    lemma_run_keys_split(s, k3, picks, today);
    lemma_picking_keeps_list(s3, picks, today);
    assert(k5.drop_last() =~= k4);
}

} // verus!
