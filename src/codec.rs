//! The data file: one line per task, `<Label>: <content>`, in store order,
//! then one `Filter: <TabName>` line.
use vstd::prelude::*;
use crate::model::{_Todo, Todo, TodoState, PrintController, entries, entry, state_name};
use crate::text::{chars_of, slice_equals, slice_starts_with, starts_with, string_of, trim, trimmed};

verus! {

/// The label that starts the line of a task in the given state.
pub open spec fn label(s: TodoState) -> Seq<char> {
    if s == TodoState::Done {
        "Done: "@
    } else if s == TodoState::NotDone {
        "Not Done: "@
    } else {
        "In Progress: "@
    }
}

/// The line, with its newline, that holds a task.
pub open spec fn item_line(t: _Todo) -> Seq<char> {
    label(t.active) + trimmed(t.content@) + "\n"@
}

/// The lines of a sequence of tasks, in order.
pub open spec fn item_lines(s: Seq<_Todo>) -> Seq<char>
    decreases s.len(),
{
    if s.len() == 0 {
        Seq::empty()
    } else {
        item_lines(s.drop_last()) + item_line(s.last())
    }
}

/// The closing line that records the active filter.
pub open spec fn filter_line(tab: TodoState) -> Seq<char> {
    "Filter: "@ + state_name(tab) + "\n"@
}

/// The whole data file for a store's tasks and an active filter.
pub open spec fn serialized(s: Seq<_Todo>, tab: TodoState) -> Seq<char> {
    item_lines(s) + filter_line(tab)
}

/// The lines of `s`: the text between newlines, and the text after the last
/// newline when there is any.
pub open spec fn split_lines(s: Seq<char>) -> Seq<Seq<char>>
    decreases s.len(),
{
    if s.len() == 0 {
        Seq::empty()
    } else {
        let rest = split_lines(s.drop_first());
        if s[0] == '\n' {
            seq![Seq::empty()] + rest
        } else if rest.len() == 0 {
            seq![seq![s[0]]]
        } else {
            rest.update(0, seq![s[0]] + rest[0])
        }
    }
}

/// Whether a line records the active filter rather than a task.
pub open spec fn is_filter_line(l: Seq<char>) -> bool {
    starts_with(l, "Filter: "@)
}

/// The task a line holds: the state its label names and the text after the
/// label. A line without a known label is an in-progress task holding the
/// whole line.
pub open spec fn parse_item(l: Seq<char>) -> (TodoState, Seq<char>) {
    if starts_with(l, "Not Done: "@) {
        (TodoState::NotDone, l.subrange("Not Done: "@.len() as int, l.len() as int))
    } else if starts_with(l, "Done: "@) {
        (TodoState::Done, l.subrange("Done: "@.len() as int, l.len() as int))
    } else if starts_with(l, "In Progress: "@) {
        (TodoState::InProgress, l.subrange("In Progress: "@.len() as int, l.len() as int))
    } else {
        (TodoState::InProgress, l)
    }
}

/// The tab a filter line names; an unknown name means `Done`.
pub open spec fn parse_tab(l: Seq<char>) -> TodoState {
    let name = l.subrange("Filter: "@.len() as int, l.len() as int);
    if name == "Other"@ {
        TodoState::Other
    } else if name == "NotDone"@ {
        TodoState::NotDone
    } else if name == "InProgress"@ {
        TodoState::InProgress
    } else {
        TodoState::Done
    }
}

/// The tasks that a sequence of lines holds, in order.
pub open spec fn parsed_items(lines: Seq<Seq<char>>) -> Seq<(TodoState, Seq<char>)>
    decreases lines.len(),
{
    if lines.len() == 0 {
        Seq::empty()
    } else if is_filter_line(lines.last()) {
        parsed_items(lines.drop_last())
    } else {
        parsed_items(lines.drop_last()).push(parse_item(lines.last()))
    }
}

/// The active tab after reading a sequence of lines, starting from `tab`:
/// the last filter line decides.
pub open spec fn parsed_tab(lines: Seq<Seq<char>>, tab: TodoState) -> TodoState
    decreases lines.len(),
{
    if lines.len() == 0 {
        tab
    } else if is_filter_line(lines.last()) {
        parse_tab(lines.last())
    } else {
        parsed_tab(lines.drop_last(), tab)
    }
}

impl Todo {
    /// The data file for this store with `controller`'s tab as the active
    /// filter. Contents are written trimmed. The caller writes the text out,
    /// replacing the whole file.
    pub fn save(&self, controller: &PrintController) -> (r: String)
        ensures
            r@ == serialized(self.todos@, controller.tab),
    {
        let mut out = String::new();
        let n = self.todos.len();
        let mut i: usize = 0;
        while i < n
            invariant
                n == self.todos@.len(),
                i <= n,
                out@ == item_lines(self.todos@.take(i as int)),
            decreases n - i,
        {
            let todo = &self.todos[i];
            let active = if todo.active == TodoState::Done {
                "Done: "
            } else if todo.active == TodoState::NotDone {
                "Not Done: "
            } else {
                "In Progress: "
            };
            out.append(active);
            out.append(trim(todo.content.as_str()));
            out.append("\n");
            proof {
                let s = self.todos@.take(i + 1);
                assert(s.drop_last() =~= self.todos@.take(i as int));
                assert(s.last() == self.todos@[i as int]);
                assert(out@ =~= item_lines(self.todos@.take(i as int)) + item_line(s.last()));
            }
            i += 1;
        }
        assert(self.todos@.take(n as int) =~= self.todos@);
        out.append("Filter: ");
        let name = controller.tab.to_string();
        out.append(name.as_str());
        out.append("\n");
        assert(out@ =~= serialized(self.todos@, controller.tab));
        out
    }
}

/// Splitting at the first newline: a line without a newline, then the rest.
pub proof fn lemma_split_line(l: Seq<char>, rest: Seq<char>)
    requires
        !l.contains('\n'),
    ensures
        split_lines(l + seq!['\n'] + rest) == seq![l] + split_lines(rest),
    decreases l.len(),
{
    let s = l + seq!['\n'] + rest;
    if l.len() == 0 {
        assert(s.drop_first() =~= rest);
        assert(l =~= Seq::<char>::empty());
    } else {
        let t = l.drop_first();
        assert(!t.contains('\n')) by {
            if t.contains('\n') {
                let k = choose|k: int| 0 <= k < t.len() && t[k] == '\n';
                assert(l[k + 1] == '\n');
            }
        }
        assert(s.drop_first() =~= t + seq!['\n'] + rest);
        lemma_split_line(t, rest);
        assert(l[0] != '\n') by {
            if l[0] == '\n' {
                assert(l.contains('\n'));
            }
        }
        assert(seq![l[0]] + t =~= l);
        assert((seq![t] + split_lines(rest)).update(0, seq![l[0]] + t) =~= seq![l] + split_lines(rest));
    }
}

/// Text without a newline is one line, or none when it is empty.
pub proof fn lemma_split_no_newline(l: Seq<char>)
    requires
        !l.contains('\n'),
    ensures
        l.len() > 0 ==> split_lines(l) == seq![l],
        l.len() == 0 ==> split_lines(l) == Seq::<Seq<char>>::empty(),
    decreases l.len(),
{
    if l.len() > 0 {
        let t = l.drop_first();
        assert(!t.contains('\n')) by {
            if t.contains('\n') {
                let k = choose|k: int| 0 <= k < t.len() && t[k] == '\n';
                assert(l[k + 1] == '\n');
            }
        }
        lemma_split_no_newline(t);
        assert(l[0] != '\n') by {
            if l[0] == '\n' {
                assert(l.contains('\n'));
            }
        }
        if t.len() == 0 {
            assert(seq![l[0]] =~= l);
        } else {
            assert(seq![l[0]] + t =~= l);
            assert(seq![t].update(0, seq![l[0]] + t) =~= seq![l]);
        }
    }
}

/// A text has no more lines than characters.
pub proof fn lemma_split_len(s: Seq<char>)
    ensures
        split_lines(s).len() <= s.len(),
    decreases s.len(),
{
    if s.len() > 0 {
        lemma_split_len(s.drop_first());
    }
}

/// Reading lines yields at most one task per line.
pub proof fn lemma_parsed_len(lines: Seq<Seq<char>>)
    ensures
        parsed_items(lines).len() <= lines.len(),
    decreases lines.len(),
{
    if lines.len() > 0 {
        lemma_parsed_len(lines.drop_last());
    }
}

/// Reads the line `chars[from..to]` into the store or the controller.
fn load_line(
    chars: &Vec<char>,
    from: usize,
    to: usize,
    todo_container: &mut Todo,
    controller: &mut PrintController,
)
    requires
        from <= to <= chars@.len(),
        old(todo_container).wf(),
        old(todo_container).todos@.len() < i32::MAX,
    ensures
        final(todo_container).wf(),
        final(todo_container).history@ == old(todo_container).history@,
        ({
            let l = chars@.subrange(from as int, to as int);
            &&& is_filter_line(l) ==> final(todo_container).todos@ == old(todo_container).todos@
                && final(controller).tab == parse_tab(l)
            &&& !is_filter_line(l) ==> entries(final(todo_container).todos@) == entries(
                old(todo_container).todos@,
            ).push(parse_item(l)) && final(controller).tab == old(controller).tab
        }),
{
    let ghost l = chars@.subrange(from as int, to as int);
    let filter = "Filter: ";
    if slice_starts_with(chars, from, to, filter) {
        let f = from + filter.unicode_len();
        assert(chars@.subrange(f as int, to as int) == l.subrange(
            "Filter: "@.len() as int,
            l.len() as int,
        ));
        let tab = if slice_equals(chars, f, to, "Other") {
            TodoState::Other
        } else if slice_equals(chars, f, to, "NotDone") {
            TodoState::NotDone
        } else if slice_equals(chars, f, to, "InProgress") {
            TodoState::InProgress
        } else {
            TodoState::Done
        };
        controller.set_state(tab);
        return;
    }
    let not_done = "Not Done: ";
    let done = "Done: ";
    let in_progress = "In Progress: ";
    let (active, skip) = if slice_starts_with(chars, from, to, not_done) {
        (TodoState::NotDone, not_done.unicode_len())
    } else if slice_starts_with(chars, from, to, done) {
        (TodoState::Done, done.unicode_len())
    } else if slice_starts_with(chars, from, to, in_progress) {
        (TodoState::InProgress, in_progress.unicode_len())
    } else {
        (TodoState::InProgress, 0)
    };
    let content = string_of(chars, from + skip, to);
    assert(content@ == parse_item(l).1);
    let id = todo_container.todos.len() as i32;
    todo_container.add_todo(_Todo { id, active, content });
    proof {
        assert(entries(todo_container.todos@) =~= entries(old(todo_container).todos@).push(
            parse_item(l),
        ));
    }
}

/// Reads a data file's text into a store and a controller: each task line is
/// appended to the store in order, and the last filter line sets the tab.
pub fn load_from_str(text: &str, todo_container: &mut Todo, controller: &mut PrintController)
    requires
        old(todo_container).wf(),
        old(todo_container).todos@.len() + text@.len() < i32::MAX,
    ensures
        final(todo_container).wf(),
        entries(final(todo_container).todos@) == entries(old(todo_container).todos@)
            + parsed_items(split_lines(text@)),
        final(todo_container).history@ == old(todo_container).history@,
        final(controller).tab == parsed_tab(split_lines(text@), old(controller).tab),
{
    let chars = chars_of(text);
    let n = chars.len();
    let mut start: usize = 0;
    let mut i: usize = 0;
    let ghost mut done: Seq<Seq<char>> = Seq::empty();
    proof {
        lemma_split_len(text@);
        assert(chars@.subrange(0, n as int) =~= text@);
        assert(parsed_items(done) =~= Seq::<(TodoState, Seq<char>)>::empty());
        assert(entries(todo_container.todos@) =~= entries(old(todo_container).todos@)
            + parsed_items(done));
    }
    while i < n
        invariant
            start <= i <= n == chars@.len(),
            chars@ == text@,
            split_lines(text@) == done + split_lines(chars@.subrange(start as int, n as int)),
            split_lines(text@).len() <= text@.len(),
            forall|k: int| start <= k < i ==> chars@[k] != '\n',
            todo_container.wf(),
            entries(todo_container.todos@) == entries(old(todo_container).todos@)
                + parsed_items(done),
            todo_container.history@ == old(todo_container).history@,
            controller.tab == parsed_tab(done, old(controller).tab),
            old(todo_container).todos@.len() + text@.len() < i32::MAX,
        decreases n - i,
    {
        if chars[i] == '\n' {
            let ghost l = chars@.subrange(start as int, i as int);
            let ghost rest = chars@.subrange(i + 1, n as int);
            proof {
                assert(!l.contains('\n')) by {
                    if l.contains('\n') {
                        let k = choose|k: int| 0 <= k < l.len() && l[k] == '\n';
                        assert(chars@[start + k] == '\n');
                    }
                }
                assert(chars@.subrange(start as int, n as int) =~= l + seq!['\n'] + rest);
                lemma_split_line(l, rest);
                assert(split_lines(text@) =~= done.push(l) + split_lines(rest));
                lemma_parsed_len(done);
                assert(entries(todo_container.todos@).len() == todo_container.todos@.len());
                assert(entries(old(todo_container).todos@).len() == old(todo_container).todos@.len());
            }
            load_line(&chars, start, i, todo_container, controller);
            proof {
                assert(done.push(l).drop_last() =~= done);
                assert(entries(todo_container.todos@) =~= entries(old(todo_container).todos@)
                    + parsed_items(done.push(l)));
                done = done.push(l);
            }
            start = i + 1;
        }
        i += 1;
    }
    if start < n {
        let ghost l = chars@.subrange(start as int, n as int);
        proof {
            assert(!l.contains('\n')) by {
                if l.contains('\n') {
                    let k = choose|k: int| 0 <= k < l.len() && l[k] == '\n';
                    assert(chars@[start + k] == '\n');
                }
            }
            lemma_split_no_newline(l);
            assert(split_lines(text@) =~= done.push(l));
            lemma_parsed_len(done);
            assert(entries(todo_container.todos@).len() == todo_container.todos@.len());
            assert(entries(old(todo_container).todos@).len() == old(todo_container).todos@.len());
        }
        load_line(&chars, start, n, todo_container, controller);
        proof {
            assert(done.push(l).drop_last() =~= done);
            assert(entries(todo_container.todos@) =~= entries(old(todo_container).todos@)
                + parsed_items(done.push(l)));
            done = done.push(l);
        }
    } else {
        proof {
            assert(chars@.subrange(start as int, n as int) =~= Seq::<char>::empty());
            assert(split_lines(text@) =~= done);
        }
    }
}

/// A task as the data file can hold it: a task state, trimmed content, and
/// no newline in the content.
pub open spec fn storable(t: _Todo) -> bool {
    &&& t.active != TodoState::Other
    &&& trimmed(t.content@) == t.content@
    &&& !t.content@.contains('\n')
}

/// A task's line without its newline.
pub open spec fn line_body(t: _Todo) -> Seq<char> {
    label(t.active) + t.content@
}

proof fn lemma_prefix(p: Seq<char>, c: Seq<char>)
    ensures
        starts_with(p + c, p),
        (p + c).subrange(p.len() as int, (p + c).len() as int) == c,
{
    assert((p + c).subrange(0, p.len() as int) =~= p);
    assert((p + c).subrange(p.len() as int, (p + c).len() as int) =~= c);
}

proof fn lemma_not_prefix(s: Seq<char>, p: Seq<char>)
    requires
        p.len() > 0,
        s.len() > 0,
        s[0] != p[0],
    ensures
        !starts_with(s, p),
{
    if p.len() <= s.len() {
        assert(s.subrange(0, p.len() as int)[0] != p[0]);
    }
}

/// The line of a storable task reads back as that task.
proof fn lemma_line_reads_back(t: _Todo)
    requires
        storable(t),
    ensures
        !is_filter_line(line_body(t)),
        parse_item(line_body(t)) == entry(t),
        !line_body(t).contains('\n'),
{
    reveal_strlit("Done: ");
    reveal_strlit("Not Done: ");
    reveal_strlit("In Progress: ");
    reveal_strlit("Filter: ");
    let b = line_body(t);
    let c = t.content@;
    let lab = label(t.active);
    lemma_prefix(lab, c);
    lemma_not_prefix(b, "Filter: "@);
    if t.active == TodoState::Done {
        lemma_not_prefix(b, "Not Done: "@);
    } else if t.active == TodoState::InProgress {
        lemma_not_prefix(b, "Not Done: "@);
        lemma_not_prefix(b, "Done: "@);
    }
    assert(!b.contains('\n')) by {
        if b.contains('\n') {
            let k = choose|k: int| 0 <= k < b.len() && b[k] == '\n';
            if k < lab.len() {
                assert(lab[k] == '\n');
            } else {
                assert(c[k - lab.len()] == '\n');
            }
        }
    }
}

/// The lines of storable tasks split back into their bodies.
proof fn lemma_split_item_lines(items: Seq<_Todo>, tail: Seq<char>)
    requires
        forall|i: int| 0 <= i < items.len() ==> storable(#[trigger] items[i]),
    ensures
        split_lines(item_lines(items) + tail) == items.map_values(|t: _Todo| line_body(t))
            + split_lines(tail),
    decreases items.len(),
{
    reveal_strlit("\n");
    if items.len() == 0 {
        assert(item_lines(items) + tail =~= tail);
        assert(items.map_values(|t: _Todo| line_body(t)) + split_lines(tail) =~= split_lines(tail));
    } else {
        let init = items.drop_last();
        let last = items.last();
        assert(storable(items[items.len() - 1]));
        lemma_line_reads_back(last);
        let tail2 = item_line(last) + tail;
        lemma_split_item_lines(init, tail2);
        assert(item_lines(items) + tail =~= item_lines(init) + tail2);
        assert(tail2 =~= line_body(last) + seq!['\n'] + tail);
        lemma_split_line(line_body(last), tail);
        assert(items.map_values(|t: _Todo| line_body(t)) =~= init.map_values(
            |t: _Todo| line_body(t),
        ).push(line_body(last)));
        assert(split_lines(item_lines(items) + tail) =~= items.map_values(
            |t: _Todo| line_body(t),
        ) + split_lines(tail));
    }
}

/// The bodies of storable tasks read back as the tasks.
proof fn lemma_parse_bodies(items: Seq<_Todo>)
    requires
        forall|i: int| 0 <= i < items.len() ==> storable(#[trigger] items[i]),
    ensures
        parsed_items(items.map_values(|t: _Todo| line_body(t))) == entries(items),
    decreases items.len(),
{
    let bodies = items.map_values(|t: _Todo| line_body(t));
    if items.len() == 0 {
        assert(entries(items) =~= Seq::<(TodoState, Seq<char>)>::empty());
    } else {
        let init = items.drop_last();
        assert(storable(items[items.len() - 1]));
        lemma_line_reads_back(items.last());
        lemma_parse_bodies(init);
        assert(bodies.drop_last() =~= init.map_values(|t: _Todo| line_body(t)));
        assert(entries(items) =~= entries(init).push(entry(items.last())));
    }
}

/// Writing storable tasks and a filter and reading the text back gives the
/// same (state, content) pairs in the same order, and the same filter
/// whatever tab the reader started from.
pub proof fn lemma_round_trip(items: Seq<_Todo>, tab: TodoState, start_tab: TodoState)
    requires
        forall|i: int| 0 <= i < items.len() ==> storable(#[trigger] items[i]),
    ensures
        parsed_items(split_lines(serialized(items, tab))) == entries(items),
        parsed_tab(split_lines(serialized(items, tab)), start_tab) == tab,
{
    reveal_strlit("\n");
    reveal_strlit("Filter: ");
    reveal_strlit("Other");
    reveal_strlit("NotDone");
    reveal_strlit("InProgress");
    reveal_strlit("Done");
    let body = "Filter: "@ + state_name(tab);
    assert(filter_line(tab) =~= body + seq!['\n'] + Seq::<char>::empty());
    assert(!body.contains('\n')) by {
        if body.contains('\n') {
            let k = choose|k: int| 0 <= k < body.len() && body[k] == '\n';
            if k < 8 {
                assert("Filter: "@[k] == '\n');
            } else {
                assert(state_name(tab)[k - 8] == '\n');
            }
        }
    }
    lemma_split_line(body, Seq::<char>::empty());
    assert(split_lines(Seq::<char>::empty()) =~= Seq::<Seq<char>>::empty());
    lemma_split_item_lines(items, filter_line(tab));
    let bodies = items.map_values(|t: _Todo| line_body(t));
    let lines = split_lines(serialized(items, tab));
    assert(lines =~= bodies.push(body));
    lemma_prefix("Filter: "@, state_name(tab));
    assert(is_filter_line(body));
    assert(lines.drop_last() =~= bodies);
    lemma_parse_bodies(items);
}

} // verus!
