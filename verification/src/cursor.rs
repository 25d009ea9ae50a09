//! Selection cursors for the list and table views.

use vstd::prelude::*;

verus! {

/// The selected-row index of one list or table view, or `None` when nothing
/// is selected. This is the whole state the core reads from a stateful TUI
/// widget; the binary converts it into the widget's own state when drawing.
#[derive(Debug, Clone)]
pub struct ListCursor {
    pub selected: Option<usize>,
}

/// What `down` does to a selection over a list of `len` entries: step towards
/// the end, clamped at the last index; an absent selection counts as 0.
pub open spec fn cursor_down(sel: Option<usize>, len: nat) -> Option<usize> {
    let cur = if sel is Some {
        sel->0 as nat
    } else {
        0
    };
    if len > 0 && cur < len - 1 {
        Some((cur + 1) as usize)
    } else {
        sel
    }
}

/// What `up` does to a selection: step towards 0, clamped there; an absent
/// selection counts as 0.
pub open spec fn cursor_up(sel: Option<usize>) -> Option<usize> {
    let cur = if sel is Some {
        sel->0 as nat
    } else {
        0
    };
    if cur > 0 {
        Some((cur - 1) as usize)
    } else {
        sel
    }
}

impl ListCursor {
    pub open spec fn spec_selected(self) -> Option<usize> {
        self.selected
    }

    /// The cursor is either cleared or within the backing sequence.
    pub open spec fn in_bounds(self, len: nat) -> bool {
        self.selected is Some ==> (self.selected->0 as nat) < len
    }

    pub fn new() -> (r: ListCursor)
        ensures
            r.spec_selected() is None,
    {
        ListCursor { selected: None }
    }

    pub fn selected(&self) -> (r: Option<usize>)
        ensures
            r == self.spec_selected(),
    {
        self.selected
    }

    pub fn select(&mut self, sel: Option<usize>)
        ensures
            final(self).spec_selected() == sel,
    {
        self.selected = sel;
    }

    /// Move one step towards the end of a list of `len` entries, without
    /// wrapping; at the last entry (or on an empty list) nothing changes.
    pub fn down(&mut self, len: usize)
        ensures
            final(self).spec_selected() == cursor_down(old(self).spec_selected(), len as nat),
            old(self).in_bounds(len as nat) ==> final(self).in_bounds(len as nat),
    {
        let cur = match self.selected {
            Some(i) => i,
            None => 0,
        };
        if len > 0 && cur < len - 1 {
            self.selected = Some(cur + 1);
        }
    }

    /// Move one step towards the top, without wrapping; at index 0 (or with
    /// no selection) nothing changes.
    pub fn up(&mut self)
        ensures
            final(self).spec_selected() == cursor_up(old(self).spec_selected()),
            forall|len: nat| old(self).in_bounds(len) ==> final(self).in_bounds(len),
    {
        let cur = match self.selected {
            Some(i) => i,
            None => 0,
        };
        if cur > 0 {
            self.selected = Some(cur - 1);
        }
    }
}

/// Stepping down from a valid index that is not the last one, then up,
/// restores the selection.
pub proof fn cursor_down_up_round_trip(sel: Option<usize>, len: nat)
    requires
        sel is Some,
        (sel->0 as nat) + 1 < len,
        len <= usize::MAX,
    ensures
        cursor_up(cursor_down(sel, len)) == sel,
{
}

} // verus!
