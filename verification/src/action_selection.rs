//! A two-entry action picker (append or delete).

use vstd::prelude::*;

verus! {

pub struct ActionSelection {
    /// The selected entry: 0 append, 1 delete.
    ptr: usize,
}

impl ActionSelection {
    /// The selection stays on one of the two entries.
    pub closed spec fn selected(&self) -> int {
        self.ptr as int
    }

    pub fn new() -> (r: Self)
        ensures
            r.selected() == 0,
    {
        Self { ptr: 0 }
    }

    /// Get the selected entry.
    pub fn get_selected(&self) -> (r: usize)
        ensures
            r == self.selected(),
    {
        self.ptr
    }

    /// Move the selection up; it wraps around the two entries.
    pub fn select_up(&mut self)
        requires
            old(self).selected() <= 1,
        ensures
            final(self).selected() == if old(self).selected() == 0 {
                1int
            } else {
                old(self).selected() - 1
            },
    {
        if self.ptr == 0 {
            self.ptr = 1;
        } else {
            self.ptr = self.ptr - 1;
        }
    }

    /// Move the selection down; it wraps around the two entries.
    pub fn select_down(&mut self)
        ensures
            final(self).selected() == if old(self).selected() >= 1 {
                0int
            } else {
                old(self).selected() + 1
            },
    {
        if self.ptr >= 1 {
            self.ptr = 0;
        } else {
            self.ptr = self.ptr + 1;
        }
    }
}

} // verus!
