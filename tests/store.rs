use tasklist::{AppState, Date, Mode, Task, Timestamp};

fn noon(year: i32, month: u32, day: u32) -> Timestamp {
    Timestamp { date: Date { year, month, day }, hour: 12, minute: 0, second: 0 }
}

fn descriptions(s: &AppState) -> Vec<String> {
    s.tasks.iter().map(|t| t.description.clone()).collect()
}

#[test]
fn new_state_is_empty_and_normal() {
    let s = AppState::new();
    assert!(s.tasks.is_empty());
    assert_eq!(s.mode, Mode::Normal);
    assert_eq!(s.selected_task, Some(0));
    assert!(s.input.is_empty());
}

#[test]
fn adds_append_in_call_order() {
    let mut s = AppState::new();
    s.add_task("a".to_string(), None);
    s.add_task("b".to_string(), Some(noon(2024, 3, 15)));
    s.add_task("c".to_string(), None);
    assert_eq!(s.tasks.len(), 3);
    assert_eq!(descriptions(&s), vec!["a", "b", "c"]);
    assert!(s.tasks.iter().all(|t| !t.completed));
    assert_eq!(s.tasks[1].deadline, Some(noon(2024, 3, 15)));
}

#[test]
fn update_overwrites_selected_task() {
    let mut s = AppState::new();
    s.add_task("a".to_string(), None);
    s.add_task("b".to_string(), None);
    s.selected_task = Some(1);
    s.tasks[1].completed = true;
    s.update_task("z".to_string(), Some(noon(2024, 1, 2)));
    assert_eq!(descriptions(&s), vec!["a", "z"]);
    assert_eq!(s.tasks[1].deadline, Some(noon(2024, 1, 2)));
    assert!(s.tasks[1].completed);
}

#[test]
fn update_without_valid_selection_is_ignored() {
    let mut s = AppState::new();
    s.add_task("a".to_string(), None);
    s.selected_task = Some(3);
    s.update_task("z".to_string(), None);
    s.selected_task = None;
    s.update_task("z".to_string(), None);
    assert_eq!(descriptions(&s), vec!["a"]);
}

#[test]
fn delete_on_empty_store_is_noop() {
    let mut s = AppState::new();
    s.delete_task();
    assert!(s.tasks.is_empty());
    assert_eq!(s.selected_task, Some(0));
}

#[test]
fn delete_without_selection_or_out_of_range_is_noop() {
    let mut s = AppState::new();
    s.add_task("a".to_string(), None);
    s.add_task("b".to_string(), None);
    s.selected_task = None;
    s.delete_task();
    assert_eq!(descriptions(&s), vec!["a", "b"]);
    assert_eq!(s.selected_task, None);
    s.selected_task = Some(2);
    s.delete_task();
    assert_eq!(descriptions(&s), vec!["a", "b"]);
    assert_eq!(s.selected_task, Some(2));
}

#[test]
fn delete_shifts_later_tasks_down() {
    let mut s = AppState::new();
    for d in ["a", "b", "c"] {
        s.add_task(d.to_string(), None);
    }
    s.selected_task = Some(1);
    s.delete_task();
    assert_eq!(descriptions(&s), vec!["a", "c"]);
    assert_eq!(s.selected_task, Some(1));
}

#[test]
fn selection_stays_in_range_after_deleting_last() {
    let mut s = AppState::new();
    s.add_task("a".to_string(), None);
    s.add_task("b".to_string(), None);
    s.selected_task = Some(1);
    s.delete_task();
    assert_eq!(descriptions(&s), vec!["a"]);
    assert_eq!(s.selected_task, Some(0));
    s.delete_task();
    assert!(s.tasks.is_empty());
    assert_eq!(s.selected_task, Some(0));
    s.add_task("c".to_string(), None);
    assert_eq!(s.selected_task, Some(0));
}

#[test]
fn toggle_twice_restores_completed() {
    let mut s = AppState::new();
    s.add_task("a".to_string(), None);
    s.toggle_selected();
    assert!(s.tasks[0].completed);
    s.toggle_selected();
    assert!(!s.tasks[0].completed);
}

#[test]
fn toggle_on_a_task_directly() {
    let mut t = Task::new("a".to_string(), None);
    assert!(!t.completed);
    t.toggle_completed();
    assert!(t.completed);
    t.toggle_completed();
    assert!(!t.completed);
}

#[test]
fn move_selection_saturates_at_both_ends() {
    let mut s = AppState::new();
    for d in ["a", "b", "c"] {
        s.add_task(d.to_string(), None);
    }
    s.move_selection(-1);
    assert_eq!(s.selected_task, Some(0));
    s.move_selection(1);
    s.move_selection(1);
    assert_eq!(s.selected_task, Some(2));
    s.move_selection(1);
    assert_eq!(s.selected_task, Some(2));
    s.move_selection(-1);
    assert_eq!(s.selected_task, Some(1));
}

#[test]
fn move_selection_on_empty_list_stays_at_zero() {
    let mut s = AppState::new();
    s.move_selection(1);
    assert_eq!(s.selected_task, Some(0));
    s.move_selection(-1);
    assert_eq!(s.selected_task, Some(0));
}
