//! Keys as the terminal front end hands them to the state machines.
use vstd::prelude::*;

verus! {

/// A key press.
#[derive(Debug, Clone, Copy, PartialEq, Eq, Structural)]
pub enum Key {
    Char(char),
    Up,
    Down,
    Left,
    Right,
    Tab,
    BackTab,
    Enter,
    Esc,
    Backspace,
    Other,
}

/// Selection in a list: the selected row, if any, and the first row shown.
#[derive(Debug, Clone, Copy, PartialEq, Eq, Structural)]
pub struct ListState {
    pub offset: usize,
    pub selected: Option<usize>,
}

impl ListState {
    /// Nothing selected, scrolled to the top.
    pub fn new() -> (res: ListState)
        ensures
            res.selected is None,
            res.offset == 0,
    {
        ListState { offset: 0, selected: None }
    }

    /// The selected row.
    pub fn selected(&self) -> (res: Option<usize>)
        ensures
            res == self.selected,
    {
        self.selected
    }

    /// Selects a row; clearing the selection also scrolls back to the top.
    pub fn select(&mut self, index: Option<usize>)
        ensures
            final(self).selected == index,
            final(self).offset == (if index is None { 0 } else { old(self).offset }),
            *final(self) == (ListState { selected: index, offset: if index is None { 0 } else { old(self).offset } }),
    {
        self.selected = index;
        if index.is_none() {
            self.offset = 0;
        }
    }
}

impl Default for ListState {
    fn default() -> (res: ListState)
        ensures
            res.selected is None,
            res.offset == 0,
    {
        ListState::new()
    }
}

/// Moves up one row, stopping at the first.
pub open spec fn is_up(k: Key) -> bool {
    k == Key::Up || k == Key::Char('k')
}

/// Moves down one row.
pub open spec fn is_down(k: Key) -> bool {
    k == Key::Down || k == Key::Char('j')
}

} // verus!
