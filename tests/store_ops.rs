use todo_list::model::{PrintController, Todo, TodoState, _Todo};
use todo_list::store::reposition_cursor;

fn store_of(items: &[(&str, TodoState)]) -> Todo {
    let mut t = Todo::new();
    for (content, state) in items {
        t.add_todo(_Todo { id: -1, active: *state, content: content.to_string() });
    }
    t
}

fn pairs(t: &Todo) -> Vec<(i32, TodoState, String)> {
    t.todos.iter().map(|x| (x.id, x.active, x.content.clone())).collect()
}

fn tab(state: TodoState) -> PrintController {
    let mut c = PrintController::new();
    c.set_state(state);
    c
}

#[test]
fn add_assigns_position_as_identity() {
    let t = store_of(&[("a", TodoState::NotDone), ("b", TodoState::Done), ("c", TodoState::InProgress)]);
    let ids: Vec<i32> = t.todos.iter().map(|x| x.id).collect();
    assert_eq!(ids, vec![0, 1, 2]);
}

#[test]
fn add_prompt_trims_and_rejects_blank() {
    let mut t = Todo::new();
    assert!(t.add_todo_prompt("  Buy milk \t"));
    assert!(!t.add_todo_prompt("   "));
    assert!(!t.add_todo_prompt(""));
    assert_eq!(pairs(&t), vec![(0, TodoState::NotDone, "Buy milk".to_string())]);
}

#[test]
fn ids_stay_dense_through_adds_and_removes() {
    let mut t = store_of(&[("a", TodoState::NotDone), ("b", TodoState::NotDone), ("c", TodoState::NotDone), ("d", TodoState::NotDone)]);
    t.remove_todo(4, 1);
    assert!(t.add_todo_prompt("e"));
    t.remove_todo(4, 0);
    t.remove_todo(3, 2);
    assert!(t.add_todo_prompt("f"));
    for (i, x) in t.todos.iter().enumerate() {
        assert_eq!(x.id, i as i32);
    }
    let contents: Vec<String> = t.todos.iter().map(|x| x.content.clone()).collect();
    assert_eq!(contents, vec!["c".to_string(), "d".to_string(), "f".to_string()]);
}

#[test]
fn remove_under_done_filter_scenario() {
    let mut t = store_of(&[("A", TodoState::Done), ("B", TodoState::NotDone)]);
    let c = tab(TodoState::Done);
    let mapping = t.mapping(&c);
    assert_eq!(mapping, vec![0]);
    t.remove_todo(mapping.len(), mapping[0] as i32);
    assert_eq!(pairs(&t), vec![(0, TodoState::NotDone, "B".to_string())]);
    assert_eq!(t.history.len(), 1);
    assert_eq!(t.history[0].active, TodoState::Done);
    assert_eq!(t.history[0].content, "A");
}

#[test]
fn remove_with_invalid_identity_is_a_no_op() {
    let mut t = store_of(&[("A", TodoState::Done)]);
    t.remove_todo(0, 0);
    t.remove_todo(1, -1);
    t.remove_todo(1, 5);
    assert_eq!(pairs(&t), vec![(0, TodoState::Done, "A".to_string())]);
    assert!(t.history.is_empty());
}

#[test]
fn undo_on_empty_history_reports_nothing() {
    let mut t = Todo::new();
    assert_eq!(t.undo(), None);
    assert!(t.todos.is_empty());
}

#[test]
fn undo_appends_at_end_with_new_identity() {
    let mut t = store_of(&[("A", TodoState::InProgress), ("B", TodoState::NotDone), ("C", TodoState::Done)]);
    t.remove_todo(3, 0);
    assert_eq!(t.undo(), Some(2));
    assert_eq!(
        pairs(&t),
        vec![
            (0, TodoState::NotDone, "B".to_string()),
            (1, TodoState::Done, "C".to_string()),
            (2, TodoState::InProgress, "A".to_string()),
        ]
    );
    assert!(t.history.is_empty());
    assert_eq!(t.undo(), None);
}

#[test]
fn undo_pops_most_recent_first() {
    let mut t = store_of(&[("A", TodoState::NotDone), ("B", TodoState::Done)]);
    t.remove_todo(2, 0);
    t.remove_todo(1, 0);
    assert_eq!(t.undo(), Some(0));
    assert_eq!(t.todos[0].content, "B");
    assert_eq!(t.undo(), Some(1));
    assert_eq!(t.todos[1].content, "A");
}

#[test]
fn toggle_done_flips_and_clobbers_in_progress() {
    let mut t = store_of(&[("A", TodoState::NotDone), ("B", TodoState::InProgress), ("C", TodoState::Done)]);
    let all = PrintController::new();
    assert_eq!(t.toggle_todo(3, 0, &all, 0), 0);
    assert_eq!(t.toggle_todo(3, 1, &all, 1), 1);
    assert_eq!(t.toggle_todo(3, 2, &all, 2), 2);
    let states: Vec<TodoState> = t.todos.iter().map(|x| x.active).collect();
    assert_eq!(states, vec![TodoState::Done, TodoState::Done, TodoState::NotDone]);
}

#[test]
fn toggle_in_progress_flips_and_done_becomes_in_progress() {
    let mut t = store_of(&[("A", TodoState::NotDone), ("B", TodoState::InProgress), ("C", TodoState::Done)]);
    let all = PrintController::new();
    t.set_in_progress(3, 0, &all, 0);
    t.set_in_progress(3, 1, &all, 1);
    t.set_in_progress(3, 2, &all, 2);
    let states: Vec<TodoState> = t.todos.iter().map(|x| x.active).collect();
    assert_eq!(states, vec![TodoState::InProgress, TodoState::NotDone, TodoState::InProgress]);
}

#[test]
fn toggle_last_row_under_filter_moves_cursor_up() {
    let mut t = store_of(&[("A", TodoState::NotDone), ("B", TodoState::NotDone), ("C", TodoState::NotDone)]);
    let c = tab(TodoState::NotDone);
    assert_eq!(t.toggle_todo(3, 2, &c, 2), 1);
    assert_eq!(t.todos[2].active, TodoState::Done);
    assert_eq!(t.set_in_progress(2, 1, &c, 1), 0);
    assert_eq!(t.set_in_progress(1, 0, &c, 0), 0);
    assert_eq!(t.toggle_todo(3, 0, &PrintController::new(), 0), 0);
}

#[test]
fn toggle_with_empty_list_changes_nothing() {
    let mut t = store_of(&[("A", TodoState::NotDone)]);
    let c = tab(TodoState::Done);
    assert_eq!(t.toggle_todo(0, 0, &c, 0), 0);
    assert_eq!(t.set_in_progress(0, 0, &c, 0), 0);
    assert_eq!(t.toggle_todo(1, -1, &c, 0), 0);
    assert_eq!(t.todos[0].active, TodoState::NotDone);
}

#[test]
fn reposition_moves_up_only_from_trailing_row() {
    assert_eq!(reposition_cursor(2, 3), 1);
    assert_eq!(reposition_cursor(1, 3), 1);
    assert_eq!(reposition_cursor(0, 1), 0);
    assert_eq!(reposition_cursor(0, 0), 0);
}

#[test]
fn edit_replaces_trimmed_text_in_place() {
    let mut t = store_of(&[("A", TodoState::InProgress), ("B", TodoState::NotDone)]);
    assert!(!t.edit_todo(2, 0, "  Apples \n"));
    assert_eq!(pairs(&t)[0], (0, TodoState::InProgress, "Apples".to_string()));
    assert_eq!(t.todos[1].content, "B");
}

#[test]
fn edit_with_same_text_changes_nothing() {
    let mut t = store_of(&[("A", TodoState::Done)]);
    assert!(!t.edit_todo(1, 0, "  A "));
    assert_eq!(pairs(&t), vec![(0, TodoState::Done, "A".to_string())]);
    assert!(t.history.is_empty());
}

#[test]
fn edit_to_blank_removes() {
    let mut t = store_of(&[("A", TodoState::Done), ("B", TodoState::NotDone)]);
    assert!(t.edit_todo(2, 0, "   "));
    assert_eq!(pairs(&t), vec![(0, TodoState::NotDone, "B".to_string())]);
    assert_eq!(t.history[0].content, "A");
}

#[test]
fn edit_with_invalid_identity_is_a_no_op() {
    let mut t = store_of(&[("A", TodoState::Done)]);
    assert!(!t.edit_todo(0, 0, "x"));
    assert!(!t.edit_todo(1, -3, "x"));
    assert!(!t.edit_todo(1, 1, "x"));
    assert_eq!(t.todos[0].content, "A");
}

#[test]
fn new_item_is_unassigned_and_not_started() {
    let t = _Todo::new("x".to_string());
    assert_eq!(t.id, -1);
    assert_eq!(t.active, TodoState::NotDone);
    assert_eq!(t.content, "x");
}

#[test]
fn cycle_tab_wraps_in_fixed_order() {
    let mut c = PrintController::new();
    assert_eq!(c.tab, TodoState::Other);
    c.cycle_tab();
    assert_eq!(c.tab, TodoState::NotDone);
    c.cycle_tab();
    assert_eq!(c.tab, TodoState::InProgress);
    c.cycle_tab();
    assert_eq!(c.tab, TodoState::Done);
    c.cycle_tab();
    assert_eq!(c.tab, TodoState::Other);
}

#[test]
fn state_names() {
    assert_eq!(TodoState::Other.to_string(), "Other");
    assert_eq!(TodoState::NotDone.to_string(), "NotDone");
    assert_eq!(TodoState::InProgress.to_string(), "InProgress");
    assert_eq!(TodoState::Done.to_string(), "Done");
}
