use tasklist::{process_key_event, process_key_event_on, AppState, Date, Key, Mode, Timestamp};

fn today() -> Date {
    Date { year: 2024, month: 3, day: 15 }
}

fn press(s: &mut AppState, keys: &[Key]) -> bool {
    let mut running = true;
    for k in keys {
        running = process_key_event_on(*k, s, today());
    }
    running
}

fn type_text(s: &mut AppState, text: &str) {
    for c in text.chars() {
        assert!(process_key_event_on(Key::Char(c), s, today()));
    }
}

fn one_task(description: &str) -> AppState {
    let mut s = AppState::new();
    s.add_task(description.to_string(), None);
    s
}

#[test]
fn q_in_normal_stops() {
    let mut s = AppState::new();
    assert!(!process_key_event_on(Key::Char('q'), &mut s, today()));
    assert_eq!(s.mode, Mode::Normal);
}

#[test]
fn other_keys_keep_running() {
    let mut s = AppState::new();
    assert!(press(&mut s, &[Key::Char('x'), Key::Other, Key::Esc]));
    assert_eq!(s.mode, Mode::Normal);
    assert!(s.tasks.is_empty());
}

#[test]
fn add_flow_creates_task_with_deadline() {
    let mut s = AppState::new();
    assert!(press(&mut s, &[Key::Char('n')]));
    assert_eq!(s.mode, Mode::Input);
    type_text(&mut s, "buy milk");
    assert_eq!(s.input, "buy milk");
    press(&mut s, &[Key::Enter]);
    assert_eq!(s.mode, Mode::DeadlineInput);
    assert_eq!(s.temp_description, "buy milk");
    assert!(s.input.is_empty());
    press(&mut s, &[Key::Char('2'), Key::Enter]);
    assert_eq!(s.mode, Mode::Normal);
    assert_eq!(s.tasks.len(), 1);
    assert_eq!(s.tasks[0].description, "buy milk");
    assert!(!s.tasks[0].completed);
    let d = s.tasks[0].deadline.unwrap();
    assert_eq!(d.date, Date { year: 2024, month: 3, day: 16 });
    assert!(s.temp_description.is_empty());
}

#[test]
fn q_while_typing_is_text() {
    let mut s = AppState::new();
    press(&mut s, &[Key::Char('n'), Key::Char('q')]);
    assert_eq!(s.mode, Mode::Input);
    assert_eq!(s.input, "q");
}

#[test]
fn backspace_removes_last_character() {
    let mut s = AppState::new();
    press(&mut s, &[Key::Char('n'), Key::Backspace]);
    assert!(s.input.is_empty());
    type_text(&mut s, "ab");
    press(&mut s, &[Key::Backspace]);
    assert_eq!(s.input, "a");
}

#[test]
fn edit_flow_updates_selected_task() {
    let mut s = one_task("");
    press(&mut s, &[Key::Char('e')]);
    assert_eq!(s.mode, Mode::Edit);
    type_text(&mut s, "buy milk");
    press(&mut s, &[Key::Enter, Key::Char('1'), Key::Enter]);
    assert_eq!(s.mode, Mode::Normal);
    assert_eq!(s.tasks.len(), 1);
    assert_eq!(s.tasks[0].description, "buy milk");
    assert_eq!(
        s.tasks[0].deadline,
        Some(Timestamp { date: today(), hour: 0, minute: 0, second: 0 })
    );
}

#[test]
fn edit_starts_from_current_description() {
    let mut s = one_task("milk");
    press(&mut s, &[Key::Char('e')]);
    assert_eq!(s.input, "milk");
    for _ in 0..4 {
        press(&mut s, &[Key::Backspace]);
    }
    type_text(&mut s, "buy milk");
    press(&mut s, &[Key::Enter, Key::Char('1'), Key::Enter]);
    assert_eq!(s.tasks[0].description, "buy milk");
    assert_eq!(s.tasks[0].deadline.unwrap().date, today());
}

#[test]
fn edit_with_local_clock_sets_today() {
    let mut s = one_task("");
    for k in [Key::Char('e')] {
        assert!(process_key_event(k, &mut s));
    }
    for c in "buy milk".chars() {
        process_key_event(Key::Char(c), &mut s);
    }
    process_key_event(Key::Enter, &mut s);
    process_key_event(Key::Char('1'), &mut s);
    process_key_event(Key::Enter, &mut s);
    assert_eq!(s.mode, Mode::Normal);
    assert_eq!(s.tasks[0].description, "buy milk");
    let d = s.tasks[0].deadline.unwrap();
    assert_eq!((d.hour, d.minute, d.second), (0, 0, 0));
}

#[test]
fn q_in_deadline_input_discards_add() {
    let mut s = one_task("keep");
    press(&mut s, &[Key::Char('n')]);
    type_text(&mut s, "new");
    press(&mut s, &[Key::Enter, Key::Char('1')]);
    assert!(press(&mut s, &[Key::Char('q')]));
    assert_eq!(s.mode, Mode::Normal);
    assert_eq!(s.tasks.len(), 1);
    assert_eq!(s.tasks[0].description, "keep");
    assert_eq!(s.tasks[0].deadline, None);
}

#[test]
fn esc_in_deadline_input_discards_edit() {
    let mut s = one_task("keep");
    press(&mut s, &[Key::Char('e')]);
    type_text(&mut s, " more");
    press(&mut s, &[Key::Enter, Key::Char('3'), Key::Esc]);
    assert_eq!(s.mode, Mode::Normal);
    assert_eq!(s.tasks.len(), 1);
    assert_eq!(s.tasks[0].description, "keep");
    assert_eq!(s.tasks[0].deadline, None);
}

#[test]
fn deadline_keys_choose_keyword() {
    let mut s = AppState::new();
    press(&mut s, &[Key::Char('n'), Key::Enter]);
    press(&mut s, &[Key::Char('1')]);
    assert_eq!(s.input, "Today");
    press(&mut s, &[Key::Char('3')]);
    assert_eq!(s.input, "This Week");
    press(&mut s, &[Key::Char('4')]);
    assert_eq!(s.input, "This Month");
    press(&mut s, &[Key::Char('2')]);
    assert_eq!(s.input, "Tomorrow");
    press(&mut s, &[Key::Char('x'), Key::Up]);
    assert_eq!(s.mode, Mode::DeadlineInput);
    assert_eq!(s.input, "Tomorrow");
}

#[test]
fn enter_without_keyword_adds_without_deadline() {
    let mut s = AppState::new();
    press(&mut s, &[Key::Char('n')]);
    type_text(&mut s, "a");
    press(&mut s, &[Key::Enter, Key::Enter]);
    assert_eq!(s.tasks.len(), 1);
    assert_eq!(s.tasks[0].deadline, None);
}

#[test]
fn delete_needs_confirmation() {
    let mut s = one_task("a");
    press(&mut s, &[Key::Char('d')]);
    assert_eq!(s.mode, Mode::DeleteConfirm);
    press(&mut s, &[Key::Char('x')]);
    assert_eq!(s.mode, Mode::Normal);
    assert_eq!(s.tasks.len(), 1);
    press(&mut s, &[Key::Char('d'), Key::Char('d')]);
    assert_eq!(s.mode, Mode::Normal);
    assert!(s.tasks.is_empty());
}

#[test]
fn c_toggles_selected_task() {
    let mut s = one_task("a");
    press(&mut s, &[Key::Char('c')]);
    assert!(s.tasks[0].completed);
    press(&mut s, &[Key::Char('c')]);
    assert!(!s.tasks[0].completed);
}

#[test]
fn e_on_empty_list_is_ignored() {
    let mut s = AppState::new();
    press(&mut s, &[Key::Char('e'), Key::Char('c')]);
    assert_eq!(s.mode, Mode::Normal);
    assert!(s.tasks.is_empty());
}

#[test]
fn arrows_move_selection() {
    let mut s = one_task("a");
    s.add_task("b".to_string(), None);
    press(&mut s, &[Key::Down, Key::Down]);
    assert_eq!(s.selected_task, Some(1));
    press(&mut s, &[Key::Up, Key::Up]);
    assert_eq!(s.selected_task, Some(0));
}
