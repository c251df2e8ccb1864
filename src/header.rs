//! The fixed header above the list: its height and its tab bar.
use vstd::prelude::*;
use crate::model::TodoState;

verus! {

/// Blank lines between the header and the list.
pub const PADDING: usize = 1;

/// Lines the header takes: two menu lines, a blank, the tab bar, a rule,
/// then the padding.
pub const HEADER_LINES: usize = 5 + PADDING;

/// The tab bar with the active tab in brackets.
pub open spec fn tab_bar_text(tab: TodoState) -> Seq<char> {
    match tab {
        TodoState::NotDone => "ALL\t[TODO]\tIN PROGRESS\tDONE"@,
        TodoState::InProgress => "ALL\tTODO\t[IN PROGRESS]\tDONE"@,
        TodoState::Done => "ALL\tTODO\tIN PROGRESS\t[DONE]"@,
        TodoState::Other => "[ALL]\tTODO\tIN PROGRESS\tDONE"@,
    }
}

/// The tab bar for the active tab.
pub fn tab_bar(tab: TodoState) -> (r: &'static str)
    ensures
        r@ == tab_bar_text(tab),
{
    match tab {
        TodoState::NotDone => "ALL\t[TODO]\tIN PROGRESS\tDONE",
        TodoState::InProgress => "ALL\tTODO\t[IN PROGRESS]\tDONE",
        TodoState::Done => "ALL\tTODO\tIN PROGRESS\t[DONE]",
        TodoState::Other => "[ALL]\tTODO\tIN PROGRESS\tDONE",
    }
}

} // verus!
