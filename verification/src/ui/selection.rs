//! The selection of a list on screen: which item is selected and which item
//! the visible part starts at. Moving the selection is ratatui's `ListState`.

use vstd::prelude::*;
use ratatui::widgets::ListState;

verus! {

/// The state of a list widget, as plain values: the selected index, if any,
/// and the index of the first item shown.
#[derive(Debug, Clone, Copy, PartialEq, Eq, Structural)]
pub struct Selection {
    pub selected: Option<usize>,
    pub offset: usize,
}

/// The index that "select next" moves to: one past the selection (staying at
/// the largest index), or the first item where nothing is selected.
pub open spec fn next_index(selected: Option<usize>) -> usize {
    match selected {
        Some(i) => if i == usize::MAX { i } else { (i + 1) as usize },
        None => 0,
    }
}

/// The index that "select previous" moves to: one before the selection
/// (staying at zero), or the largest index where nothing is selected, which
/// the list clamps to its last item when drawn.
pub open spec fn previous_index(selected: Option<usize>) -> usize {
    match selected {
        Some(i) => if i == 0 { 0 } else { (i - 1) as usize },
        None => usize::MAX,
    }
}

/// ratatui's `ListState::select_next`, on a state built from `sel`: it selects
/// `selected.map_or(0, |i| i.saturating_add(1))` through `select`, which
/// leaves the offset as it is when the selection is `Some`.
#[verifier::external_body]
fn list_state_select_next(sel: Selection) -> (r: Selection)
    ensures
        r.selected == Some(next_index(sel.selected)),
        r.offset == sel.offset,
{
    let mut state = ListState::default().with_offset(sel.offset).with_selected(sel.selected);
    state.select_next();
    Selection { selected: state.selected(), offset: state.offset() }
}

/// ratatui's `ListState::select_previous`, on a state built from `sel`: it
/// selects `selected.map_or(usize::MAX, |i| i.saturating_sub(1))` through
/// `select`, which leaves the offset as it is when the selection is `Some`.
#[verifier::external_body]
fn list_state_select_previous(sel: Selection) -> (r: Selection)
    ensures
        r.selected == Some(previous_index(sel.selected)),
        r.offset == sel.offset,
{
    let mut state = ListState::default().with_offset(sel.offset).with_selected(sel.selected);
    state.select_previous();
    Selection { selected: state.selected(), offset: state.offset() }
}

/// ratatui's `ListState::select`, on a state built from `sel`: the selection
/// becomes `index`; the offset goes back to zero when `index` is `None`.
#[verifier::external_body]
fn list_state_select(sel: Selection, index: Option<usize>) -> (r: Selection)
    ensures
        r.selected == index,
        r.offset == (if index is None { 0 } else { sel.offset }),
{
    let mut state = ListState::default().with_offset(sel.offset).with_selected(sel.selected);
    state.select(index);
    Selection { selected: state.selected(), offset: state.offset() }
}

impl Selection {
    /// Nothing selected, the list shown from its first item.
    pub fn new() -> (s: Self)
        ensures
            s.selected is None,
            s.offset == 0,
    {
        Selection { selected: None, offset: 0 }
    }

    /// The selected index, if any.
    pub fn selected(&self) -> (r: Option<usize>)
        ensures
            r == self.selected,
    {
        self.selected
    }

    /// Selects the next item, or the first one where none is selected.
    pub fn select_next(&mut self)
        ensures
            final(self).selected == Some(next_index(old(self).selected)),
            final(self).offset == old(self).offset,
    {
        *self = list_state_select_next(*self);
    }

    /// Selects the previous item, or the last one where none is selected.
    pub fn select_previous(&mut self)
        ensures
            final(self).selected == Some(previous_index(old(self).selected)),
            final(self).offset == old(self).offset,
    {
        *self = list_state_select_previous(*self);
    }

    /// Selects `index`; selecting nothing also scrolls back to the top.
    pub fn select(&mut self, index: Option<usize>)
        ensures
            final(self).selected == index,
            final(self).offset == (if index is None { 0 } else { old(self).offset }),
    {
        *self = list_state_select(*self, index);
    }
}

/// Moving down and then up returns to the same item, unless the selection
/// was already at the largest index.
pub proof fn lemma_next_then_previous(i: usize)
    requires
        i < usize::MAX,
    ensures
        previous_index(Some(next_index(Some(i)))) == i,
{
}

/// Moving up and then down returns to the same item, unless the selection
/// was already at the first one.
pub proof fn lemma_previous_then_next(i: usize)
    requires
        i > 0,
    ensures
        next_index(Some(previous_index(Some(i)))) == i,
{
}

} // verus!
