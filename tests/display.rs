use tasklist::{is_earlier, task_style, AppState, Date, Key, Mode, Task, TaskStyle, Timestamp};

fn at(year: i32, month: u32, day: u32, hour: u32) -> Timestamp {
    Timestamp { date: Date { year, month, day }, hour, minute: 0, second: 0 }
}

#[test]
fn prompt_follows_mode() {
    let mut s = AppState::new();
    assert_eq!(s.prompt(), ("Input".to_string(), "Press 'n' to add a task".to_string()));
    tasklist::process_key_event_on(Key::Char('n'), &mut s, Date { year: 2024, month: 1, day: 1 });
    s.input = "ab".to_string();
    assert_eq!(s.prompt(), ("Input".to_string(), "Input Mode: ab".to_string()));
    s.mode = Mode::Edit;
    assert_eq!(s.prompt(), ("Edit".to_string(), "Editing: ab".to_string()));
    s.mode = Mode::DeleteConfirm;
    assert_eq!(
        s.prompt().1,
        "Press 'd' again to confirm deletion, or any other key to cancel."
    );
    s.mode = Mode::DeadlineInput;
    assert_eq!(
        s.prompt(),
        (
            "Select Deadline".to_string(),
            "1: Today, 2: Tomorrow, 3: This Week, 4: This Month".to_string()
        )
    );
}

#[test]
fn earlier_compares_field_by_field() {
    assert!(is_earlier(at(2024, 3, 15, 0), at(2024, 3, 15, 1)));
    assert!(is_earlier(at(2023, 12, 31, 23), at(2024, 1, 1, 0)));
    assert!(!is_earlier(at(2024, 3, 15, 0), at(2024, 3, 15, 0)));
    assert!(!is_earlier(at(2024, 3, 16, 0), at(2024, 3, 15, 23)));
}

#[test]
fn styles_of_task_lines() {
    let now = at(2024, 3, 15, 12);
    let mut overdue = Task::new("a".to_string(), Some(at(2024, 3, 15, 0)));
    assert_eq!(task_style(&overdue, 0, Some(0), now), TaskStyle::Overdue);
    overdue.toggle_completed();
    assert_eq!(task_style(&overdue, 0, Some(1), now), TaskStyle::Completed);
    assert_eq!(task_style(&overdue, 0, Some(0), now), TaskStyle::Selected);
    let later = Task::new("b".to_string(), Some(at(2024, 3, 16, 0)));
    assert_eq!(task_style(&later, 2, Some(0), now), TaskStyle::Plain);
    assert_eq!(task_style(&later, 2, Some(2), now), TaskStyle::Selected);
    assert_eq!(task_style(&later, 2, None, now), TaskStyle::Plain);
}

#[test]
fn styles_for_whole_list() {
    let mut s = AppState::new();
    s.add_task("a".to_string(), None);
    s.add_task("b".to_string(), Some(at(2000, 1, 1, 0)));
    let styles = s.task_styles(at(2024, 1, 1, 0));
    assert_eq!(styles, vec![TaskStyle::Selected, TaskStyle::Overdue]);
}
