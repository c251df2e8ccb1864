use todo_list::model::{PrintController, Todo, TodoState, _Todo};
use todo_list::session::{apply_command, Command};

fn store_of(items: &[(&str, TodoState)]) -> Todo {
    let mut t = Todo::new();
    for (content, state) in items {
        t.add_todo(_Todo { id: -1, active: *state, content: content.to_string() });
    }
    t
}

fn pairs(t: &Todo) -> Vec<(TodoState, String)> {
    t.todos.iter().map(|x| (x.active, x.content.clone())).collect()
}

#[test]
fn done_filter_then_remove_scenario() {
    let mut t = store_of(&[("A", TodoState::Done), ("B", TodoState::NotDone)]);
    let mut c = PrintController::new();
    let mut cursor = 1;
    while c.tab != TodoState::Done {
        cursor = apply_command(&mut t, &mut c, cursor, &Command::CycleTab);
    }
    assert_eq!(cursor, 0);
    assert_eq!(t.mapping(&c), vec![0]);
    cursor = apply_command(&mut t, &mut c, cursor, &Command::Remove);
    assert_eq!(cursor, 0);
    assert_eq!(pairs(&t), vec![(TodoState::NotDone, "B".to_string())]);
    assert_eq!(t.todos[0].id, 0);
    assert_eq!(t.history.len(), 1);
    assert_eq!((t.history[0].active, t.history[0].content.as_str()), (TodoState::Done, "A"));
}

#[test]
fn undo_with_empty_history_keeps_cursor() {
    let mut t = Todo::new();
    let mut c = PrintController::new();
    assert_eq!(apply_command(&mut t, &mut c, 0, &Command::Undo), 0);
    assert!(t.todos.is_empty());
    let mut t = store_of(&[("A", TodoState::NotDone), ("B", TodoState::NotDone)]);
    assert_eq!(apply_command(&mut t, &mut c, 1, &Command::Undo), 1);
}

#[test]
fn remove_trailing_row_moves_cursor_up() {
    let mut t = store_of(&[("A", TodoState::Done), ("B", TodoState::Done), ("C", TodoState::Done)]);
    let mut c = PrintController::new();
    c.set_state(TodoState::Done);
    assert_eq!(apply_command(&mut t, &mut c, 2, &Command::Remove), 1);
    assert_eq!(pairs(&t), vec![(TodoState::Done, "A".to_string()), (TodoState::Done, "B".to_string())]);
}

#[test]
fn remove_middle_row_keeps_cursor() {
    let mut t = store_of(&[("A", TodoState::Done), ("B", TodoState::Done), ("C", TodoState::Done)]);
    let mut c = PrintController::new();
    assert_eq!(apply_command(&mut t, &mut c, 1, &Command::Remove), 1);
    assert_eq!(t.todos[1].content, "C");
}

#[test]
fn remove_selects_through_filtered_mapping() {
    let mut t = store_of(&[("A", TodoState::NotDone), ("B", TodoState::Done), ("C", TodoState::NotDone)]);
    let mut c = PrintController::new();
    c.set_state(TodoState::NotDone);
    assert_eq!(apply_command(&mut t, &mut c, 1, &Command::Remove), 0);
    assert_eq!(pairs(&t), vec![(TodoState::NotDone, "A".to_string()), (TodoState::Done, "B".to_string())]);
    assert_eq!(t.history[0].content, "C");
}

#[test]
fn selection_commands_on_empty_list_do_nothing() {
    let mut t = store_of(&[("A", TodoState::Done)]);
    let mut c = PrintController::new();
    c.set_state(TodoState::NotDone);
    for cmd in [Command::Remove, Command::ToggleDone, Command::ToggleInProgress, Command::Edit("x".to_string())] {
        assert_eq!(apply_command(&mut t, &mut c, 0, &cmd), 0);
    }
    assert_eq!(pairs(&t), vec![(TodoState::Done, "A".to_string())]);
}

#[test]
fn add_moves_cursor_to_new_last_row() {
    let mut t = store_of(&[("A", TodoState::NotDone), ("B", TodoState::Done)]);
    let mut c = PrintController::new();
    assert_eq!(apply_command(&mut t, &mut c, 0, &Command::Add(" C ".to_string())), 2);
    assert_eq!(t.todos[2].content, "C");
    assert_eq!(apply_command(&mut t, &mut c, 0, &Command::Add("  ".to_string())), 0);
    assert_eq!(t.todos.len(), 3);
}

#[test]
fn cycle_resets_cursor() {
    let mut t = store_of(&[("A", TodoState::NotDone), ("B", TodoState::NotDone)]);
    let mut c = PrintController::new();
    assert_eq!(apply_command(&mut t, &mut c, 1, &Command::CycleTab), 0);
    assert_eq!(c.tab, TodoState::NotDone);
}

#[test]
fn toggle_under_filter_hides_and_repositions() {
    let mut t = store_of(&[("A", TodoState::NotDone), ("B", TodoState::NotDone), ("C", TodoState::NotDone)]);
    let mut c = PrintController::new();
    c.set_state(TodoState::NotDone);
    assert_eq!(apply_command(&mut t, &mut c, 2, &Command::ToggleDone), 1);
    assert_eq!(t.todos[2].active, TodoState::Done);
    assert_eq!(apply_command(&mut t, &mut c, 1, &Command::ToggleInProgress), 0);
    assert_eq!(t.todos[1].active, TodoState::InProgress);
}

#[test]
fn undo_restores_visible_item_at_end_of_filtered_list() {
    let mut t = store_of(&[("A", TodoState::NotDone), ("B", TodoState::NotDone)]);
    let mut c = PrintController::new();
    assert_eq!(apply_command(&mut t, &mut c, 0, &Command::Remove), 0);
    assert_eq!(apply_command(&mut t, &mut c, 0, &Command::Undo), 1);
    assert_eq!(pairs(&t), vec![(TodoState::NotDone, "B".to_string()), (TodoState::NotDone, "A".to_string())]);
}

#[test]
fn edit_to_blank_removes_and_repositions() {
    let mut t = store_of(&[("A", TodoState::NotDone), ("B", TodoState::NotDone)]);
    let mut c = PrintController::new();
    assert_eq!(apply_command(&mut t, &mut c, 1, &Command::Edit(" ".to_string())), 0);
    assert_eq!(pairs(&t), vec![(TodoState::NotDone, "A".to_string())]);
    assert_eq!(apply_command(&mut t, &mut c, 0, &Command::Edit("Z".to_string())), 0);
    assert_eq!(t.todos[0].content, "Z");
}

#[test]
fn navigation_and_passive_commands() {
    let mut t = store_of(&[("A", TodoState::NotDone), ("B", TodoState::NotDone)]);
    let mut c = PrintController::new();
    assert_eq!(apply_command(&mut t, &mut c, 0, &Command::Down), 1);
    assert_eq!(apply_command(&mut t, &mut c, 1, &Command::Down), 1);
    assert_eq!(apply_command(&mut t, &mut c, 1, &Command::Up), 0);
    assert_eq!(apply_command(&mut t, &mut c, 0, &Command::Up), 0);
    assert_eq!(apply_command(&mut t, &mut c, 1, &Command::Save), 1);
    assert_eq!(apply_command(&mut t, &mut c, 1, &Command::Quit), 1);
    assert_eq!(t.todos.len(), 2);
}
