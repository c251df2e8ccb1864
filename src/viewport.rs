//! The viewport: which tasks the active tab shows, which page of them fits
//! the screen around the cursor, and the rows to draw.
use vstd::prelude::*;
use crate::model::{_Todo, Todo, TodoState, PrintController};
use crate::text::{trim, trimmed};

verus! {

/// Whether a task in state `s` shows under tab `tab`.
pub open spec fn shown(tab: TodoState, s: TodoState) -> bool {
    tab == TodoState::Other || s == tab
}

/// The positions of the tasks among `s[0..n]` that show under `tab`, in order.
pub open spec fn filtered_upto(s: Seq<_Todo>, tab: TodoState, n: int) -> Seq<usize>
    decreases n,
{
    if n <= 0 {
        Seq::empty()
    } else if shown(tab, s[n - 1].active) {
        filtered_upto(s, tab, n - 1).push((n - 1) as usize)
    } else {
        filtered_upto(s, tab, n - 1)
    }
}

/// The positions of the tasks of `s` that show under `tab`, in order.
pub open spec fn filtered(s: Seq<_Todo>, tab: TodoState) -> Seq<usize> {
    filtered_upto(s, tab, s.len() as int)
}

/// The window `[start, end)` of filtered rows on screen, for a cursor, a
/// filtered count and a page of `rows` rows: the first page while the cursor
/// is on it, else the page of `rows` rows that holds the cursor.
pub open spec fn window(cursor: usize, count: usize, rows: usize) -> (int, int) {
    if cursor < rows {
        (0, if count < rows { count as int } else { rows as int })
    } else {
        let start = (cursor / rows) * rows;
        (start as int, start + rows)
    }
}

/// How a drawn row is highlighted.
#[derive(Debug, Clone, Copy, PartialEq, Eq, Structural)]
pub enum Highlight {
    Selected,
    Completed,
    Plain,
}

/// The highlight of the row at filtered index `index` for a task in state `s`.
pub open spec fn highlight_of(index: int, cursor: usize, s: TodoState) -> Highlight {
    if index == cursor {
        Highlight::Selected
    } else if s == TodoState::Done {
        Highlight::Completed
    } else {
        Highlight::Plain
    }
}

/// The check box drawn before a task in state `s`.
pub open spec fn marker(s: TodoState) -> Seq<char> {
    if s == TodoState::NotDone {
        "- [ ]\t"@
    } else if s == TodoState::InProgress {
        "- [-]\t"@
    } else {
        "- [x]\t"@
    }
}

/// One row to draw: the screen line, the task's identity, its highlight and
/// its text.
pub struct Row {
    pub line: usize,
    pub id: usize,
    pub highlight: Highlight,
    pub text: String,
}

impl Todo {
    /// The identities of the tasks that `controller`'s tab shows, in store
    /// order: the mapping from filtered rows to tasks.
    pub fn mapping(&self, controller: &PrintController) -> (r: Vec<usize>)
        requires
            self.wf(),
        ensures
            r@ == filtered(self.todos@, controller.tab),
    {
        let mut out: Vec<usize> = Vec::new();
        let n = self.todos.len();
        let mut t: usize = 0;
        while t < n
            invariant
                n == self.todos@.len(),
                t <= n,
                out@ == filtered_upto(self.todos@, controller.tab, t as int),
            decreases n - t,
        {
            let todo = &self.todos[t];
            if todo.active == controller.tab || controller.tab == TodoState::Other {
                out.push(t);
            }
            t += 1;
        }
        out
    }
}

/// The page of filtered rows on screen, `[start, end)`, for a cursor on a
/// filtered list of `count` rows, a screen of `screen_lines` lines and a
/// header of `header_lines` lines. Overflow past the first page puts the
/// start at the multiple of the page height below the cursor.
pub fn page_window(
    cursor_position: usize,
    count: usize,
    screen_lines: usize,
    header_lines: usize,
) -> (r: (usize, usize))
    requires
        header_lines < screen_lines,
        cursor_position + screen_lines <= usize::MAX,
    ensures
        r.0 as int == window(cursor_position, count, (screen_lines - header_lines) as usize).0,
        r.1 as int == window(cursor_position, count, (screen_lines - header_lines) as usize).1,
        r.0 <= r.1,
        r.1 - r.0 <= screen_lines - header_lines,
        cursor_position < count ==> r.0 <= cursor_position < r.1,
        cursor_position >= screen_lines - header_lines ==> r.0 as int % (
        screen_lines - header_lines) == 0,
{
    let rows = screen_lines - header_lines;
    if cursor_position < rows {
        let end = if count < rows {
            count
        } else {
            rows
        };
        (0, end)
    } else {
        let n = cursor_position / rows;
        proof {
            lemma_page_start(cursor_position, rows);
        }
        let start = n * rows;
        (start, start + rows)
    }
}

/// The page that holds the cursor starts at a multiple of the page height at
/// or below the cursor, and ends above it.
proof fn lemma_page_start(cursor: usize, rows: usize)
    requires
        rows >= 1,
    ensures
        (cursor / rows) * rows <= cursor < (cursor / rows) * rows + rows,
        ((cursor / rows) * rows) % (rows as int) == 0,
{
    assert((cursor / rows) * rows <= cursor < (cursor / rows) * rows + rows) by (nonlinear_arith)
        requires
            rows >= 1,
    ;
    vstd::arithmetic::div_mod::lemma_mod_multiples_basic((cursor / rows) as int, rows as int);
}

/// For a nonempty page, the window around a cursor on the list holds the
/// cursor, spans at most one page, and, once past the first page, starts at
/// a multiple of the page height.
pub proof fn lemma_window_covers_cursor(cursor: usize, count: usize, rows: usize)
    requires
        rows >= 1,
        cursor < count,
    ensures
        window(cursor, count, rows).0 <= cursor < window(cursor, count, rows).1,
        window(cursor, count, rows).1 - window(cursor, count, rows).0 <= rows,
        cursor >= rows ==> window(cursor, count, rows).0 % (rows as int) == 0,
{
    if cursor >= rows {
        lemma_page_start(cursor, rows);
    }
}

/// Every filtered position is a position of the store, and positions come
/// in increasing order.
pub proof fn lemma_filtered_bounds(s: Seq<_Todo>, tab: TodoState, n: int)
    requires
        0 <= n <= s.len(),
    ensures
        filtered_upto(s, tab, n).len() <= n,
        forall|i: int|
            0 <= i < filtered_upto(s, tab, n).len() ==> #[trigger] filtered_upto(s, tab, n)[i]
                < n,
    decreases n,
{
    if n > 0 {
        lemma_filtered_bounds(s, tab, n - 1);
    }
}

/// The text of a task's row: its check box, then its trimmed content.
pub open spec fn row_text(t: _Todo) -> Seq<char> {
    marker(t.active) + trimmed(t.content@)
}

/// Whether `row` is the row drawn for filtered index `k` on a page that
/// starts at filtered index `start`.
pub open spec fn row_matches(
    row: Row,
    s: Seq<_Todo>,
    m: Seq<usize>,
    k: int,
    start: int,
    cursor: usize,
    header_lines: usize,
) -> bool {
    &&& row.line == header_lines + (k - start)
    &&& row.id == m[k]
    &&& row.highlight == highlight_of(k, cursor, s[m[k] as int].active)
    &&& row.text@ == row_text(s[m[k] as int])
}

impl Todo {
    /// The rows to draw for `controller`'s tab: the filtered tasks inside the
    /// page around the cursor, each on line `header_lines` plus its place in
    /// the page, the one at the cursor selected and done ones marked.
    pub fn visible_rows(
        &self,
        controller: &PrintController,
        cursor_position: usize,
        screen_lines: usize,
        header_lines: usize,
    ) -> (r: Vec<Row>)
        requires
            self.wf(),
            header_lines < screen_lines,
            cursor_position + screen_lines <= usize::MAX,
        ensures
            ({
                let m = filtered(self.todos@, controller.tab);
                let w = window(cursor_position, m.len() as usize, (screen_lines - header_lines) as usize);
                let stop = if w.1 < m.len() { w.1 } else { m.len() as int };
                &&& r@.len() == if w.0 < stop { stop - w.0 } else { 0 }
                &&& forall|j: int|
                    0 <= j < r@.len() ==> row_matches(
                        #[trigger] r@[j],
                        self.todos@,
                        m,
                        w.0 + j,
                        w.0,
                        cursor_position,
                        header_lines,
                    )
            }),
    {
        let m = self.mapping(controller);
        proof {
            lemma_filtered_bounds(self.todos@, controller.tab, self.todos@.len() as int);
        }
        let (start, end) = page_window(cursor_position, m.len(), screen_lines, header_lines);
        let stop = if end < m.len() {
            end
        } else {
            m.len()
        };
        let mut rows: Vec<Row> = Vec::new();
        let mut k = start;
        while k < stop
            invariant
                m@ == filtered(self.todos@, controller.tab),
                forall|i: int| 0 <= i < m@.len() ==> #[trigger] m@[i] < self.todos@.len(),
                start <= k,
                k <= stop || k == start,
                start as int == window(cursor_position, m@.len() as usize, (screen_lines - header_lines) as usize).0,
                end as int == window(cursor_position, m@.len() as usize, (screen_lines - header_lines) as usize).1,
                stop as int == if end < m@.len() { end as int } else { m@.len() as int },
                stop <= m@.len(),
                stop <= end,
                end - start <= screen_lines - header_lines,
                header_lines < screen_lines,
                rows@.len() == k - start,
                forall|j: int|
                    0 <= j < rows@.len() ==> row_matches(
                        #[trigger] rows@[j],
                        self.todos@,
                        m@,
                        start + j,
                        start as int,
                        cursor_position,
                        header_lines,
                    ),
            decreases stop - k,
        {
            let id = m[k];
            let todo = &self.todos[id];
            let mut text = String::new();
            let mark = if todo.active == TodoState::NotDone {
                "- [ ]\t"
            } else if todo.active == TodoState::InProgress {
                "- [-]\t"
            } else {
                "- [x]\t"
            };
            text.append(mark);
            text.append(trim(todo.content.as_str()));
            let highlight = if k == cursor_position {
                Highlight::Selected
            } else if todo.active == TodoState::Done {
                Highlight::Completed
            } else {
                Highlight::Plain
            };
            let row = Row { line: header_lines + (k - start), id, highlight, text };
            rows.push(row);
            k += 1;
        }
        rows
    }
}

} // verus!
