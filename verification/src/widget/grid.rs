//! The selection of a grid: which row is highlighted, moving with wrap-around
//! over the rows its data source holds.

use vstd::prelude::*;

verus! {

/// The row after `sel` among `len` rows, wrapping to the first.
pub open spec fn next_row(sel: Option<usize>, len: nat) -> Option<usize> {
    if len == 0 {
        sel
    } else {
        match sel {
            Some(i) => Some(((i + 1) % (len as int)) as usize),
            None => Some(0),
        }
    }
}

/// The row before `sel` among `len` rows, wrapping to the last.
pub open spec fn previous_row(sel: Option<usize>, len: nat) -> Option<usize> {
    if len == 0 {
        sel
    } else {
        match sel {
            Some(i) => Some(if i == 0 {
                (len - 1) as usize
            } else {
                (i - 1) as usize
            }),
            None => Some(0),
        }
    }
}

/// A grid's selection state.
pub struct GridView {
    selected: Option<usize>,
}

impl GridView {
    pub closed spec fn selection(self) -> Option<usize> {
        self.selected
    }

    /// A grid with nothing selected.
    pub fn new() -> (g: Self)
        ensures
            g.selection() is None,
    {
        GridView { selected: None }
    }

    /// The selected row.
    pub fn selected(&self) -> (r: Option<usize>)
        ensures
            r == self.selection(),
    {
        self.selected
    }

    /// Select a row, or nothing.
    pub fn select(&mut self, index: Option<usize>)
        ensures
            final(self).selection() == index,
    {
        self.selected = index;
    }

    /// Move down over `len` rows, wrapping to the first; nothing moves
    /// when there are no rows.
    pub fn next(&mut self, len: usize)
        requires
            old(self).selection() != Some(usize::MAX),
        ensures
            final(self).selection() == next_row(old(self).selection(), len as nat),
    {
        if len == 0 {
            return;
        }
        let i = match self.selected {
            Some(i) => (i + 1) % len,
            None => 0,
        };
        self.selected = Some(i);
    }

    /// Move up over `len` rows, wrapping to the last; nothing moves when
    /// there are no rows.
    pub fn previous(&mut self, len: usize)
        ensures
            final(self).selection() == previous_row(old(self).selection(), len as nat),
    {
        if len == 0 {
            return;
        }
        let i = match self.selected {
            Some(i) => if i == 0 {
                len - 1
            } else {
                i - 1
            },
            None => 0,
        };
        self.selected = Some(i);
    }
}

/// Moving down then up over the same rows comes back to a selected row
/// that lies among them.
pub proof fn law_previous_undoes_next(sel: usize, len: nat)
    requires
        sel < len,
        len <= usize::MAX,
    ensures
        previous_row(next_row(Some(sel), len), len) == Some(sel),
{
    if sel + 1 < len {
        assert((sel + 1) % (len as int) == sel + 1) by (nonlinear_arith)
            requires
                0 <= sel + 1 < len,
        ;
    } else {
        assert((sel + 1) % (len as int) == 0) by (nonlinear_arith)
            requires
                sel + 1 == len,
        ;
    }
}

/// Moving up then down over the same rows comes back to a selected row
/// that lies among them.
pub proof fn law_next_undoes_previous(sel: usize, len: nat)
    requires
        sel < len,
        len <= usize::MAX,
    ensures
        next_row(previous_row(Some(sel), len), len) == Some(sel),
{
    if sel == 0 {
        assert(((len - 1) + 1) % (len as int) == 0) by (nonlinear_arith)
            requires
                len > 0,
        ;
    } else {
        assert(((sel - 1) + 1) % (len as int) == sel) by (nonlinear_arith)
            requires
                0 < sel < len,
        ;
    }
}

} // verus!
