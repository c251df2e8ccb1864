//! One step of the interactive loop: a command applied to the store, the
//! filter and the cursor. Reading keys and text, drawing and writing the
//! file are the caller's part.
use vstd::prelude::*;
use crate::model::{_Todo, Todo, TodoState, PrintController, entries, entry, next_tab};
use crate::navigation::{down_of, navigate_down, navigate_up, up_of};
use crate::store::{cursor_after_hide, reposition_cursor, toggled_done, toggled_in_progress};
use crate::text::trimmed;
use crate::viewport::{filtered, lemma_filtered_bounds, shown};

verus! {

/// What the user asked for. `Add` and `Edit` carry the text entered at the
/// prompt.
pub enum Command {
    Up,
    Down,
    ToggleDone,
    ToggleInProgress,
    Add(String),
    Edit(String),
    Remove,
    Undo,
    CycleTab,
    Save,
    Quit,
}

/// Whether the store can take one more task: identities must fit an `i32`.
pub open spec fn has_room(s: Seq<_Todo>) -> bool {
    s.len() < i32::MAX
}

/// The cursor after an add: the last row of the new filtered list, or
/// unchanged when that list is empty.
pub open spec fn cursor_after_add(count: int, cursor: usize) -> usize {
    if count > 0 {
        (count - 1) as usize
    } else {
        cursor
    }
}

/// The task at filtered row `cursor` of `m`, or 0 when there is none.
pub open spec fn selected(m: Seq<usize>, cursor: usize) -> int {
    if cursor < m.len() {
        m[cursor as int] as int
    } else {
        0
    }
}

/// Applies `command` at filtered row `cursor_position` and returns the new
/// cursor. Commands that need a selection do nothing when the cursor is on
/// no row; commands that add a task do nothing when the store is full.
pub fn apply_command(
    todos: &mut Todo,
    controller: &mut PrintController,
    cursor_position: usize,
    command: &Command,
) -> (r: usize)
    requires
        old(todos).wf(),
    ensures
        final(todos).wf(),
        ({
            let tab = old(controller).tab;
            let old_items = old(todos).todos@;
            let m = filtered(old_items, tab);
            let n = m.len() as usize;
            let sel = cursor_position < m.len();
            let id = selected(m, cursor_position);
            let unchanged = final(todos).todos@ == old_items && final(todos).history@ == old(
                todos,
            ).history@;
            let kept_history = final(todos).history@ == old(todos).history@;
            &&& (command is CycleTab) ==> final(controller).tab == next_tab(tab)
            &&& !(command is CycleTab) ==> final(controller).tab == tab
            &&& match *command {
                Command::Up => unchanged && r == up_of(cursor_position),
                Command::Down => unchanged && r == down_of(n, cursor_position),
                Command::ToggleDone => if sel {
                    &&& entries(final(todos).todos@) == entries(old_items).update(
                        id,
                        (toggled_done(old_items[id].active), old_items[id].content@),
                    )
                    &&& kept_history
                    &&& r == if tab == TodoState::Other {
                        cursor_position
                    } else {
                        cursor_after_hide(cursor_position, n)
                    }
                } else {
                    unchanged && r == cursor_position
                },
                Command::ToggleInProgress => if sel {
                    &&& entries(final(todos).todos@) == entries(old_items).update(
                        id,
                        (toggled_in_progress(old_items[id].active), old_items[id].content@),
                    )
                    &&& kept_history
                    &&& r == if tab == TodoState::Other {
                        cursor_position
                    } else {
                        cursor_after_hide(cursor_position, n)
                    }
                } else {
                    unchanged && r == cursor_position
                },
                Command::Add(text) => if has_room(old_items) && trimmed(text@).len() > 0 {
                    &&& entries(final(todos).todos@) == entries(old_items).push(
                        (TodoState::NotDone, trimmed(text@)),
                    )
                    &&& kept_history
                    &&& r == cursor_after_add(
                        filtered(final(todos).todos@, tab).len() as int,
                        cursor_position,
                    )
                } else {
                    unchanged && r == cursor_position
                },
                Command::Edit(text) => {
                    let new_text = trimmed(text@);
                    if !sel || new_text == trimmed(old_items[id].content@) {
                        unchanged && r == cursor_position
                    } else if new_text.len() == 0 {
                        &&& entries(final(todos).todos@) == entries(old_items).remove(id)
                        &&& final(todos).history@ == old(todos).history@.push(old_items[id])
                        &&& r == cursor_after_hide(cursor_position, n)
                    } else {
                        &&& entries(final(todos).todos@) == entries(old_items).update(
                            id,
                            (old_items[id].active, new_text),
                        )
                        &&& kept_history
                        &&& r == cursor_position
                    }
                },
                Command::Remove => if sel {
                    &&& entries(final(todos).todos@) == entries(old_items).remove(id)
                    &&& final(todos).history@ == old(todos).history@.push(old_items[id])
                    &&& r == cursor_after_hide(cursor_position, n)
                } else {
                    unchanged && r == cursor_position
                },
                Command::Undo => if old(todos).history@.len() > 0 && has_room(old_items) {
                    &&& entries(final(todos).todos@) == entries(old_items).push(
                        entry(old(todos).history@.last()),
                    )
                    &&& final(todos).history@ == old(todos).history@.drop_last()
                    &&& r == if shown(tab, old(todos).history@.last().active) {
                        n
                    } else {
                        cursor_position
                    }
                } else {
                    unchanged && r == cursor_position
                },
                Command::CycleTab => unchanged && r == 0,
                Command::Save => unchanged && r == cursor_position,
                Command::Quit => unchanged && r == cursor_position,
            }
        }),
{
    let m = todos.mapping(controller);
    let n = m.len();
    proof {
        lemma_filtered_bounds(todos.todos@, controller.tab, todos.todos@.len() as int);
    }
    let sel = cursor_position < n;
    let id: i32 = if sel {
        let i = m[cursor_position];
        assert(todos.todos@[i as int].id == i);
        i as i32
    } else {
        0
    };
    match command {
        Command::Up => navigate_up(cursor_position),
        Command::Down => navigate_down(n, cursor_position),
        Command::ToggleDone => {
            if !sel {
                return cursor_position;
            }
            todos.toggle_todo(n, id, controller, cursor_position)
        },
        Command::ToggleInProgress => {
            if !sel {
                return cursor_position;
            }
            todos.set_in_progress(n, id, controller, cursor_position)
        },
        Command::Add(text) => {
            if todos.todos.len() >= i32::MAX as usize {
                return cursor_position;
            }
            if todos.add_todo_prompt(text.as_str()) {
                let count = todos.mapping(controller).len();
                if count > 0 {
                    count - 1
                } else {
                    cursor_position
                }
            } else {
                cursor_position
            }
        },
        Command::Edit(text) => {
            if !sel {
                return cursor_position;
            }
            if todos.edit_todo(n, id, text.as_str()) {
                reposition_cursor(cursor_position, n)
            } else {
                cursor_position
            }
        },
        Command::Remove => {
            if !sel {
                return cursor_position;
            }
            todos.remove_todo(n, id);
            reposition_cursor(cursor_position, n)
        },
        Command::Undo => {
            if todos.todos.len() >= i32::MAX as usize {
                return cursor_position;
            }
            let hl = todos.history.len();
            if hl == 0 {
                return cursor_position;
            }
            let state = todos.history[hl - 1].active;
            match todos.undo() {
                None => cursor_position,
                Some(_) => {
                    if state == controller.tab || controller.tab == TodoState::Other {
                        n
                    } else {
                        cursor_position
                    }
                },
            }
        },
        Command::CycleTab => {
            controller.cycle_tab();
            0
        },
        Command::Save => cursor_position,
        Command::Quit => cursor_position,
    }
}

} // verus!
