//! The tab bar of the dashboard: the fixed set of tabs configured at
//! startup and the index of the active one, moved left and right with
//! wrap-around at both ends.

use vstd::prelude::*;

verus! {

/// Which data source a tab shows.
#[derive(Clone, Copy, PartialEq, Eq, Structural, Debug)]
pub enum TabKind {
    ZMX,
    Slick,
}

/// One tab: its source kind and its title, immutable after construction.
pub struct Tab<'a> {
    pub kind: TabKind,
    pub title: &'a str,
}

/// The configured tabs and the index of the active one.
pub struct TabsState<'a> {
    pub tabs: Vec<Tab<'a>>,
    pub index: usize,
}

impl<'a> TabsState<'a> {
    /// The active index stays within the tabs; an empty tab list keeps
    /// it parked at zero.
    pub open spec fn wf(self) -> bool {
        self.index < self.tabs@.len() || self.index == 0
    }

    /// A fresh state with the first tab active.
    pub fn new(tabs: Vec<Tab<'a>>) -> (r: TabsState<'a>)
        ensures
            r.tabs@ == tabs@,
            r.index == 0,
            r.wf(),
    {
        TabsState { tabs, index: 0 }
    }

    /// Activates the tab to the right; from the last tab this wraps
    /// around to the first.
    pub fn next(&mut self)
        requires
            old(self).tabs@.len() > 0,
            old(self).wf(),
        ensures
            final(self).tabs@ == old(self).tabs@,
            final(self).index == (old(self).index + 1) % (old(self).tabs@.len() as int),
            final(self).wf(),
    {
        let len = self.tabs.len();
        assert(self.index < len);
        self.index = (self.index + 1) % len;
    }

    /// Activates the tab to the left; from the first tab this wraps
    /// around to the last.
    pub fn previous(&mut self)
        requires
            old(self).tabs@.len() > 0,
            old(self).wf(),
        ensures
            final(self).tabs@ == old(self).tabs@,
            final(self).index == if old(self).index > 0 {
                old(self).index - 1
            } else {
                old(self).tabs@.len() - 1
            },
            final(self).wf(),
    {
        if self.index > 0 {
            self.index = self.index - 1;
        } else {
            self.index = self.tabs.len() - 1;
        }
    }

    /// The active tab.
    pub fn current(&self) -> (r: &Tab<'a>)
        requires
            self.index < self.tabs@.len(),
        ensures
            *r == self.tabs@[self.index as int],
    {
        &self.tabs[self.index]
    }

    /// The titles of all tabs, in order.
    pub fn titles(&self) -> (r: Vec<&'a str>)
        ensures
            r@.len() == self.tabs@.len(),
            forall|k: int| 0 <= k < r@.len() ==> r@[k] == self.tabs@[k].title,
    {
        let mut r: Vec<&'a str> = Vec::new();
        let mut k: usize = 0;
        while k < self.tabs.len()
            invariant
                k <= self.tabs@.len(),
                r@.len() == k,
                forall|m: int| 0 <= m < k ==> r@[m] == self.tabs@[m].title,
            decreases self.tabs@.len() - k,
        {
            r.push(self.tabs[k].title);
            k = k + 1;
        }
        r
    }
}

} // verus!
