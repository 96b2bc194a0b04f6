//! Selection cursor over an ordered list: the backing items of one tab's
//! scrollable pane, with a clamped selection index.

use vstd::prelude::*;

verus! {

/// An ordered list of items together with the index of the selected one.
pub struct ListState<I> {
    pub items: Vec<I>,
    pub selected: usize,
}

impl<I> ListState<I> {
    /// The selection always stays within the items, except that an empty
    /// list keeps the cursor parked at zero.
    pub open spec fn wf(self) -> bool {
        self.selected < self.items@.len() || self.selected == 0
    }

    /// A fresh list with the cursor on the first item.
    pub fn new(items: Vec<I>) -> (r: ListState<I>)
        ensures
            r.items@ == items@,
            r.selected == 0,
            r.wf(),
    {
        ListState { items, selected: 0 }
    }

    /// Moves the selection one item up; at the first item (and on an
    /// empty list) this is a no-op.
    pub fn select_previous(&mut self)
        ensures
            final(self).items@ == old(self).items@,
            final(self).selected == if old(self).selected > 0 {
                (old(self).selected - 1) as int
            } else {
                0int
            },
            old(self).wf() ==> final(self).wf(),
    {
        if self.selected > 0 {
            self.selected = self.selected - 1;
        }
    }

    /// Moves the selection one item down; at the last item (and on an
    /// empty list) this is a no-op.
    pub fn select_next(&mut self)
        requires
            old(self).wf(),
        ensures
            final(self).items@ == old(self).items@,
            final(self).selected == if old(self).selected + 1 < old(self).items@.len() {
                old(self).selected + 1
            } else {
                old(self).selected as int
            },
            final(self).wf(),
    {
        if self.items.len() > 0 && self.selected < self.items.len() - 1 {
            self.selected = self.selected + 1;
        }
    }
}

} // verus!
