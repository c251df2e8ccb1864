//! The store's mutation protocol: add, toggle, edit, remove and undo, each
//! keeping identities dense and returning the cursor the caller should use.
use vstd::prelude::*;
use crate::model::{_Todo, Todo, TodoState, PrintController, entries, entry};
use crate::text::{trim, trimmed};

verus! {

/// The state a task takes when its done mark is toggled: `Done` becomes
/// `NotDone`, anything else becomes `Done`.
pub open spec fn toggled_done(s: TodoState) -> TodoState {
    if s == TodoState::Done {
        TodoState::NotDone
    } else {
        TodoState::Done
    }
}

/// The state a task takes when its in-progress mark is toggled: `InProgress`
/// becomes `NotDone`, anything else becomes `InProgress`.
pub open spec fn toggled_in_progress(s: TodoState) -> TodoState {
    if s == TodoState::InProgress {
        TodoState::NotDone
    } else {
        TodoState::InProgress
    }
}

/// The cursor after the selected row left a filtered list that had `length`
/// rows: it moves up when it was on the last row and rows remain above it.
pub open spec fn cursor_after_hide(cursor: usize, length: usize) -> usize {
    if length > 0 && cursor == length - 1 && cursor > 0 {
        (cursor - 1) as usize
    } else {
        cursor
    }
}

/// Whether an operation on the task `id`, selected in a filtered list of
/// `length` rows, has a task to act on.
pub open spec fn targets(todos: Seq<_Todo>, length: usize, id: i32) -> bool {
    length > 0 && 0 <= id < todos.len()
}

/// Applies the repositioning rule for a selected row that left the view.
pub fn reposition_cursor(cursor: usize, length: usize) -> (r: usize)
    ensures
        r == cursor_after_hide(cursor, length),
{
    if length > 0 && cursor == length - 1 && cursor > 0 {
        cursor - 1
    } else {
        cursor
    }
}

impl Todo {
    /// Appends `todo` with the identity of its new position.
    pub fn add_todo(&mut self, todo: _Todo)
        requires
            old(self).wf(),
            old(self).todos@.len() < i32::MAX,
        ensures
            final(self).wf(),
            final(self).todos@ == old(self).todos@.push(
                (_Todo { id: old(self).todos@.len() as i32, active: todo.active, content: todo.content }),
            ),
            final(self).history@ == old(self).history@,
    {
        let mut todo = todo;
        todo.id = self.todos.len() as i32;
        self.todos.push(todo);
    }

    /// Adds a new task from the text entered at the add prompt. The text is
    /// trimmed; text that is empty or all whitespace adds nothing. Returns
    /// whether a task was added.
    pub fn add_todo_prompt(&mut self, content: &str) -> (r: bool)
        requires
            old(self).wf(),
            old(self).todos@.len() < i32::MAX,
        ensures
            final(self).wf(),
            r == (trimmed(content@).len() > 0),
            r ==> entries(final(self).todos@) == entries(old(self).todos@).push(
                (TodoState::NotDone, trimmed(content@)),
            ),
            !r ==> final(self).todos@ == old(self).todos@,
            final(self).history@ == old(self).history@,
    {
        let text = trim(content);
        if text.unicode_len() > 0 {
            self.add_todo(_Todo::new(String::from_str(text)));
            proof {
                assert(entries(self.todos@) =~= entries(old(self).todos@).push(
                    (TodoState::NotDone, trimmed(content@)),
                ));
            }
            return true;
        }
        false
    }

    /// Sets the state of the task at position `idx`, keeping everything else.
    fn set_active(&mut self, idx: usize, state: TodoState)
        requires
            old(self).wf(),
            idx < old(self).todos@.len(),
        ensures
            final(self).wf(),
            entries(final(self).todos@) == entries(old(self).todos@).update(
                idx as int,
                (state, old(self).todos@[idx as int].content@),
            ),
            final(self).history@ == old(self).history@,
    {
        self.todos[idx].active = state;
        proof {
            assert(entries(self.todos@) =~= entries(old(self).todos@).update(
                idx as int,
                (state, old(self).todos@[idx as int].content@),
            ));
        }
    }

    /// Flips the done mark of task `id`, selected at row `cursor_position` of
    /// a filtered list of `length` rows, and returns the cursor to use next.
    /// An empty list or an absent task leaves everything unchanged.
    pub fn toggle_todo(
        &mut self,
        length: usize,
        id: i32,
        controller: &PrintController,
        cursor_position: usize,
    ) -> (r: usize)
        requires
            old(self).wf(),
        ensures
            final(self).wf(),
            final(self).history@ == old(self).history@,
            targets(old(self).todos@, length, id) ==> entries(final(self).todos@) == entries(
                old(self).todos@,
            ).update(
                id as int,
                (
                    toggled_done(old(self).todos@[id as int].active),
                    old(self).todos@[id as int].content@,
                ),
            ),
            !targets(old(self).todos@, length, id) ==> final(self).todos@ == old(self).todos@,
            r == if !targets(old(self).todos@, length, id) || controller.tab == TodoState::Other {
                cursor_position
            } else {
                cursor_after_hide(cursor_position, length)
            },
    {
        if length == 0 || id < 0 || id as usize >= self.todos.len() {
            return cursor_position;
        }
        let idx = id as usize;
        let state = if self.todos[idx].active == TodoState::Done {
            TodoState::NotDone
        } else {
            TodoState::Done
        };
        self.set_active(idx, state);
        if controller.tab == TodoState::Other {
            return cursor_position;
        }
        reposition_cursor(cursor_position, length)
    }

    /// Flips the in-progress mark of task `id`, selected at row
    /// `cursor_position` of a filtered list of `length` rows, and returns the
    /// cursor to use next. A done task becomes in progress. An empty list or
    /// an absent task leaves everything unchanged.
    pub fn set_in_progress(
        &mut self,
        length: usize,
        id: i32,
        controller: &PrintController,
        cursor_position: usize,
    ) -> (r: usize)
        requires
            old(self).wf(),
        ensures
            final(self).wf(),
            final(self).history@ == old(self).history@,
            targets(old(self).todos@, length, id) ==> entries(final(self).todos@) == entries(
                old(self).todos@,
            ).update(
                id as int,
                (
                    toggled_in_progress(old(self).todos@[id as int].active),
                    old(self).todos@[id as int].content@,
                ),
            ),
            !targets(old(self).todos@, length, id) ==> final(self).todos@ == old(self).todos@,
            r == if !targets(old(self).todos@, length, id) || controller.tab == TodoState::Other {
                cursor_position
            } else {
                cursor_after_hide(cursor_position, length)
            },
    {
        if length == 0 || id < 0 || id as usize >= self.todos.len() {
            return cursor_position;
        }
        let idx = id as usize;
        let state = if self.todos[idx].active == TodoState::InProgress {
            TodoState::NotDone
        } else {
            TodoState::InProgress
        };
        self.set_active(idx, state);
        if controller.tab == TodoState::Other {
            return cursor_position;
        }
        reposition_cursor(cursor_position, length)
    }

    /// Gives every task the identity of its position.
    fn renumber(&mut self)
        requires
            old(self).todos@.len() <= i32::MAX,
        ensures
            final(self).wf(),
            entries(final(self).todos@) == entries(old(self).todos@),
            final(self).history@ == old(self).history@,
    {
        let n = self.todos.len();
        let mut i: usize = 0;
        while i < n
            invariant
                n == self.todos@.len() <= i32::MAX,
                i <= n,
                entries(self.todos@) == entries(old(self).todos@),
                forall|k: int| 0 <= k < i ==> #[trigger] self.todos@[k].id == k,
                self.history@ == old(self).history@,
            decreases n - i,
        {
            self.todos[i].id = i as i32;
            proof {
                assert(entries(self.todos@) =~= entries(old(self).todos@)) by {
                    assert forall|k: int| 0 <= k < n implies #[trigger] entries(self.todos@)[k]
                        == entries(old(self).todos@)[k] by {
                        assert(entries(self.todos@)[k] == entry(self.todos@[k]));
                    }
                }
            }
            i += 1;
        }
    }

    /// Removes task `id`, selected in a filtered list of `length` rows, onto
    /// the undo history, and renumbers the tasks after it. An empty list or
    /// an absent task leaves everything unchanged.
    pub fn remove_todo(&mut self, length: usize, id: i32)
        requires
            old(self).wf(),
        ensures
            final(self).wf(),
            targets(old(self).todos@, length, id) ==> {
                &&& entries(final(self).todos@) == entries(old(self).todos@).remove(id as int)
                &&& final(self).history@ == old(self).history@.push(old(self).todos@[id as int])
            },
            !targets(old(self).todos@, length, id) ==> {
                &&& final(self).todos@ == old(self).todos@
                &&& final(self).history@ == old(self).history@
            },
    {
        if length == 0 || id < 0 || id as usize >= self.todos.len() {
            return;
        }
        let idx = id as usize;
        proof {
            let last = old(self).todos@.len() - 1;
            assert(old(self).todos@[last].id == last);
        }
        let removed = self.todos.remove(idx);
        self.history.push(removed);
        proof {
            assert(entries(self.todos@) =~= entries(old(self).todos@).remove(id as int));
        }
        self.renumber();
    }

    /// Restores the most recently removed task at the end of the store and
    /// returns its new identity, or `None` when there is nothing to undo.
    pub fn undo(&mut self) -> (r: Option<usize>)
        requires
            old(self).wf(),
            old(self).todos@.len() < i32::MAX,
        ensures
            final(self).wf(),
            old(self).history@.len() == 0 ==> {
                &&& r == None::<usize>
                &&& final(self).todos@ == old(self).todos@
                &&& final(self).history@ == old(self).history@
            },
            old(self).history@.len() > 0 ==> {
                &&& r == Some(old(self).todos.len())
                &&& entries(final(self).todos@) == entries(old(self).todos@).push(
                    entry(old(self).history@.last()),
                )
                &&& final(self).history@ == old(self).history@.drop_last()
            },
    {
        match self.history.pop() {
            None => None,
            Some(prev) => {
                let id = self.todos.len();
                self.add_todo(prev);
                proof {
                    assert(entries(self.todos@) =~= entries(old(self).todos@).push(
                        entry(old(self).history@.last()),
                    ));
                }
                Some(id)
            },
        }
    }

    /// Applies the text entered at the edit prompt to task `id`, selected in
    /// a filtered list of `length` rows. The text is trimmed: text equal to
    /// the task's trimmed content changes nothing, empty text removes the
    /// task, other text replaces the content in place. Returns whether the
    /// task was removed. An empty list or an absent task changes nothing.
    pub fn edit_todo(&mut self, length: usize, id: i32, edited_content: &str) -> (r: bool)
        requires
            old(self).wf(),
        ensures
            final(self).wf(),
            ({
                let valid = targets(old(self).todos@, length, id);
                let new_text = trimmed(edited_content@);
                let changed = valid && new_text != trimmed(old(self).todos@[id as int].content@);
                &&& r == (changed && new_text.len() == 0)
                &&& !changed ==> final(self).todos@ == old(self).todos@
                    && final(self).history@ == old(self).history@
                &&& r ==> entries(final(self).todos@) == entries(old(self).todos@).remove(id as int)
                    && final(self).history@ == old(self).history@.push(old(self).todos@[id as int])
                &&& changed && new_text.len() > 0 ==> entries(final(self).todos@) == entries(
                    old(self).todos@,
                ).update(id as int, (old(self).todos@[id as int].active, new_text))
                    && final(self).history@ == old(self).history@
            }),
    {
        if length == 0 || id < 0 || id as usize >= self.todos.len() {
            return false;
        }
        let idx = id as usize;
        let new_text = String::from_str(trim(edited_content));
        let current = String::from_str(trim(self.todos[idx].content.as_str()));
        if new_text == current {
            return false;
        }
        if new_text.as_str().unicode_len() == 0 {
            self.remove_todo(length, id);
            return true;
        }
        self.todos[idx].content = new_text;
        proof {
            assert(entries(self.todos@) =~= entries(old(self).todos@).update(
                id as int,
                (old(self).todos@[id as int].active, trimmed(edited_content@)),
            ));
        }
        false
    }
}


} // verus!
