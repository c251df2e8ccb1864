//! The task data: an item's state, the items themselves, the store that
//! holds them with its undo history, and the active filter tab.
use vstd::prelude::*;

verus! {

/// The lifecycle state of an item. `Other` is never an item's state: as a
/// filter tab it stands for "all items".
#[derive(Debug, Clone, Copy, PartialEq, Eq, Structural)]
pub enum TodoState {
    Other,
    NotDone,
    InProgress,
    Done,
}

/// The name under which a state is written as the filter of a data file.
pub open spec fn state_name(s: TodoState) -> Seq<char> {
    match s {
        TodoState::Other => "Other"@,
        TodoState::NotDone => "NotDone"@,
        TodoState::InProgress => "InProgress"@,
        TodoState::Done => "Done"@,
    }
}

impl TodoState {
    /// The state's name, as the filter line of a data file holds it.
    pub fn to_string(&self) -> (r: String)
        ensures
            r@ == state_name(*self),
    {
        match self {
            TodoState::Other => String::from_str("Other"),
            TodoState::NotDone => String::from_str("NotDone"),
            TodoState::InProgress => String::from_str("InProgress"),
            TodoState::Done => String::from_str("Done"),
        }
    }
}

/// One task. In a store, `id` is the item's position.
pub struct _Todo {
    pub id: i32,
    pub active: TodoState,
    pub content: String,
}

impl _Todo {
    /// A task that has not been started, with no position assigned yet.
    pub fn new(content: String) -> (r: _Todo)
        ensures
            r.id == -1,
            r.active == TodoState::NotDone,
            r.content == content,
    {
        _Todo { id: -1, active: TodoState::NotDone, content }
    }
}

/// What a task carries besides its position: its state and its text.
pub open spec fn entry(t: _Todo) -> (TodoState, Seq<char>) {
    (t.active, t.content@)
}

/// The (state, text) pairs of a sequence of tasks, in order.
pub open spec fn entries(s: Seq<_Todo>) -> Seq<(TodoState, Seq<char>)> {
    s.map_values(|t: _Todo| entry(t))
}

/// The store: the tasks in order, and the removed tasks, most recent last.
pub struct Todo {
    pub todos: Vec<_Todo>,
    pub history: Vec<_Todo>,
}

/// Every task's `id` is its position in `s`.
pub open spec fn dense(s: Seq<_Todo>) -> bool {
    forall|i: int| 0 <= i < s.len() ==> #[trigger] s[i].id == i
}

/// Dense identities are exactly `0..len` in order: no gaps and no
/// duplicates.
pub proof fn lemma_dense_ids(s: Seq<_Todo>)
    requires
        dense(s),
    ensures
        s.map_values(|t: _Todo| t.id as int) == Seq::new(s.len(), |i: int| i),
        forall|i: int, j: int| 0 <= i < j < s.len() ==> s[i].id != s[j].id,
{
    assert(s.map_values(|t: _Todo| t.id as int) =~= Seq::new(s.len(), |i: int| i));
    assert forall|i: int, j: int| 0 <= i < j < s.len() implies s[i].id != s[j].id by {
        assert(s[i].id == i && s[j].id == j);
    }
}

impl Todo {
    /// The store's invariant: identities are exactly the positions `0..len`.
    pub open spec fn wf(&self) -> bool {
        dense(self.todos@)
    }

    /// An empty store with an empty history.
    pub fn new() -> (r: Todo)
        ensures
            r.wf(),
            r.todos@.len() == 0,
            r.history@.len() == 0,
    {
        Todo { todos: Vec::new(), history: Vec::new() }
    }
}

/// The active filter tab.
pub struct PrintController {
    pub tab: TodoState,
}

/// The tab that follows `t` in the order All, NotDone, InProgress, Done, All.
pub open spec fn next_tab(t: TodoState) -> TodoState {
    match t {
        TodoState::Other => TodoState::NotDone,
        TodoState::NotDone => TodoState::InProgress,
        TodoState::InProgress => TodoState::Done,
        TodoState::Done => TodoState::Other,
    }
}

impl PrintController {
    /// A controller showing all items.
    pub fn new() -> (r: PrintController)
        ensures
            r.tab == TodoState::Other,
    {
        PrintController { tab: TodoState::Other }
    }

    /// Sets the active tab.
    pub fn set_state(&mut self, state: TodoState)
        ensures
            final(self).tab == state,
    {
        self.tab = state;
    }

    /// Advances to the next tab, wrapping after `Done`.
    pub fn cycle_tab(&mut self)
        ensures
            final(self).tab == next_tab(old(self).tab),
    {
        let states: [TodoState; 4] = [
            TodoState::Other,
            TodoState::NotDone,
            TodoState::InProgress,
            TodoState::Done,
        ];
        let mut index: usize = 0;
        while index < 4
            invariant
                index <= 4,
                self.tab == old(self).tab,
                forall|k: int| 0 <= k < index ==> states@[k] != old(self).tab,
                states@ == seq![
                    TodoState::Other,
                    TodoState::NotDone,
                    TodoState::InProgress,
                    TodoState::Done,
                ],
            decreases 4 - index,
        {
            if self.tab == states[index] {
                self.tab = states[(index + 1) % 4];
                return;
            }
            index += 1;
        }
    }
}

} // verus!
