//! The fiber monitor: the tab that shows the rendered fiber forest, the
//! selected fiber's dump text, a scroll offset into it, and the rolling
//! window of per-status fiber counts.

use vstd::prelude::*;
use std::collections::VecDeque;
use crate::list::ListState;
use crate::model::Fiber;
use crate::model::FiberCount;
use crate::model::FiberStatus;
use crate::text::line_count;
use crate::text::count_lines;
use crate::tree::lines_match;
use crate::tree::printable_tree;
use crate::tree::tree_lines;
use crate::window::window_push;
use crate::window::window_pushed;

verus! {

/// Largest value the detail pane reports as a dump's height.
pub const MAX_DUMP_HEIGHT: u16 = 65535;

/// The height the detail pane uses for a dump body: its line count,
/// saturated at the largest representable height.
pub open spec fn dump_height(s: Seq<char>) -> int {
    if line_count(s) > MAX_DUMP_HEIGHT {
        MAX_DUMP_HEIGHT as int
    } else {
        line_count(s) as int
    }
}

/// The per-status counts of one fiber snapshot.
pub open spec fn status_count(records: Seq<Fiber>, st: FiberStatus) -> nat
    decreases records.len(),
{
    if records.len() == 0 {
        0
    } else {
        status_count(records.drop_last(), st) + (if records.last().status == st {
            1nat
        } else {
            0nat
        })
    }
}

/// All four per-status counts of one fiber snapshot.
pub open spec fn counts_of(records: Seq<Fiber>) -> FiberCount {
    FiberCount {
        done: status_count(records, FiberStatus::Done) as usize,
        suspended: status_count(records, FiberStatus::Suspended) as usize,
        running: status_count(records, FiberStatus::Running) as usize,
        finishing: status_count(records, FiberStatus::Finishing) as usize,
    }
}

proof fn lemma_status_count_le(records: Seq<Fiber>, st: FiberStatus)
    ensures
        status_count(records, st) <= records.len(),
    decreases records.len(),
{
    if records.len() > 0 {
        lemma_status_count_le(records.drop_last(), st);
    }
}

/// Derives the per-status counts of a fresh fiber dump.
pub fn count_fibers(records: &Vec<Fiber>) -> (r: FiberCount)
    ensures
        r == counts_of(records@),
{
    let mut done: usize = 0;
    let mut suspended: usize = 0;
    let mut running: usize = 0;
    let mut finishing: usize = 0;
    let mut i: usize = 0;
    while i < records.len()
        invariant
            i <= records@.len(),
            done == status_count(records@.take(i as int), FiberStatus::Done),
            suspended == status_count(records@.take(i as int), FiberStatus::Suspended),
            running == status_count(records@.take(i as int), FiberStatus::Running),
            finishing == status_count(records@.take(i as int), FiberStatus::Finishing),
        decreases records@.len() - i,
    {
        proof {
            assert(records@.take(i + 1).drop_last() =~= records@.take(i as int));
            assert(records@.take(i + 1).last() == records@[i as int]);
            lemma_status_count_le(records@.take(i as int), FiberStatus::Done);
            lemma_status_count_le(records@.take(i as int), FiberStatus::Suspended);
            lemma_status_count_le(records@.take(i as int), FiberStatus::Running);
            lemma_status_count_le(records@.take(i as int), FiberStatus::Finishing);
        }
        match records[i].status {
            FiberStatus::Done => { done = done + 1; },
            FiberStatus::Suspended => { suspended = suspended + 1; },
            FiberStatus::Running => { running = running + 1; },
            FiberStatus::Finishing => { finishing = finishing + 1; },
        }
        i = i + 1;
    }
    proof {
        assert(records@.take(records@.len() as int) =~= records@);
    }
    FiberCount { done, suspended, running, finishing }
}

/// How `dump_fibers` relates the tab after a fresh full dump to the tab
/// before it: the forest is re-rendered, the selection reset to the
/// first line and its dump text loaded, the scroll reset to the top,
/// counts untouched.
pub open spec fn dumped(t0: ZMXTab, t1: ZMXTab, fd: Seq<Fiber>) -> bool {
    &&& t1.zmx_addr == t0.zmx_addr
    &&& t1.fiber_counts == t0.fiber_counts
    &&& t1.scroll == 0
    &&& t1.wf()
    &&& t1.fibers.selected == 0
    &&& t1.fibers.items@.len() == tree_lines(fd).len()
    &&& (forall|k: int|
        0 <= k < tree_lines(fd).len() ==> t1.fibers.items@[k]@ == tree_lines(fd)[k].0)
    &&& t1.fiber_dump_all@.len() == tree_lines(fd).len()
    &&& (forall|k: int|
        0 <= k < tree_lines(fd).len() ==> t1.fiber_dump_all@[k]@ == tree_lines(fd)[k].1)
    &&& if tree_lines(fd).len() > 0 {
        &&& t1.selected_fiber_dump.0@ == tree_lines(fd)[0].1
        &&& t1.selected_fiber_dump.1 == dump_height(tree_lines(fd)[0].1)
    } else {
        &&& t1.selected_fiber_dump.0@ == Seq::<char>::empty()
        &&& t1.selected_fiber_dump.1 == 0
    }
}

/// How `tick` relates the tab after a routine dump to the tab before
/// it: the snapshot's per-status counts are appended to the rolling
/// window, everything else untouched.
pub open spec fn ticked(t0: ZMXTab, t1: ZMXTab, fd: Seq<Fiber>) -> bool {
    &&& t1.fiber_counts@ == window_pushed(
        t0.fiber_counts@,
        ZMXTab::MAX_FIBER_COUNT_MEASURES as nat,
        counts_of(fd),
    )
    &&& t1.zmx_addr == t0.zmx_addr
    &&& t1.fibers == t0.fibers
    &&& t1.selected_fiber_dump == t0.selected_fiber_dump
    &&& t1.fiber_dump_all == t0.fiber_dump_all
    &&& t1.scroll == t0.scroll
}

/// How moving the selection to `ns` relates the tab after to the tab
/// before: the cursor lands on `ns`, the detail pane shows that line's
/// dump with the scroll reset, and everything else is untouched.  With
/// nothing to select the pane keeps what it had.
pub open spec fn selection_moved(t0: ZMXTab, t1: ZMXTab, ns: int) -> bool {
    &&& t1.zmx_addr == t0.zmx_addr
    &&& t1.fibers.items@ == t0.fibers.items@
    &&& t1.fibers.selected == ns
    &&& t1.fiber_dump_all == t0.fiber_dump_all
    &&& t1.fiber_counts == t0.fiber_counts
    &&& t1.wf()
    &&& if ns < t0.fiber_dump_all@.len() {
        &&& t1.selected_fiber_dump.0@ == t0.fiber_dump_all@[ns]@
        &&& t1.selected_fiber_dump.1 == dump_height(t0.fiber_dump_all@[ns]@)
        &&& t1.scroll == 0
    } else {
        &&& t1.selected_fiber_dump == t0.selected_fiber_dump
        &&& t1.scroll == t0.scroll
    }
}

/// State of the fiber tab.
pub struct ZMXTab {
    pub zmx_addr: String,
    pub fibers: ListState<String>,
    pub selected_fiber_dump: (String, u16),
    pub fiber_dump_all: Vec<String>,
    pub scroll: u16,
    pub fiber_counts: VecDeque<FiberCount>,
}

impl ZMXTab {
    /// How many fiber-count samples the rolling window is bounded by.
    pub const MAX_FIBER_COUNT_MEASURES: usize = 100;

    /// Every rendered line is backed by a dump text at the same index,
    /// and the selection stays within them.
    pub open spec fn wf(self) -> bool {
        &&& self.fibers.wf()
        &&& self.fibers.items@.len() == self.fiber_dump_all@.len()
    }

    /// A fresh, not yet populated tab for the fiber source at `zio_zmx_addr`.
    pub fn new(zio_zmx_addr: String) -> (r: ZMXTab)
        ensures
            r.zmx_addr@ == zio_zmx_addr@,
            r.fibers.items@.len() == 0,
            r.fibers.selected == 0,
            r.selected_fiber_dump.0@ == Seq::<char>::empty(),
            r.selected_fiber_dump.1 == 1,
            r.fiber_dump_all@.len() == 0,
            r.scroll == 0,
            r.fiber_counts@.len() == 0,
            r.wf(),
    {
        ZMXTab {
            zmx_addr: zio_zmx_addr,
            fibers: ListState::new(Vec::new()),
            selected_fiber_dump: (String::new(), 1),
            fiber_dump_all: Vec::new(),
            scroll: 0,
            fiber_counts: VecDeque::new(),
        }
    }

    /// Appends one count sample to the rolling window, evicting the
    /// oldest first once the window already holds more than the bound.
    pub fn append_fiber_count(&mut self, c: FiberCount)
        ensures
            final(self).fiber_counts@ == window_pushed(
                old(self).fiber_counts@,
                ZMXTab::MAX_FIBER_COUNT_MEASURES as nat,
                c,
            ),
            final(self).zmx_addr == old(self).zmx_addr,
            final(self).fibers == old(self).fibers,
            final(self).selected_fiber_dump == old(self).selected_fiber_dump,
            final(self).fiber_dump_all == old(self).fiber_dump_all,
            final(self).scroll == old(self).scroll,
    {
        window_push(&mut self.fiber_counts, ZMXTab::MAX_FIBER_COUNT_MEASURES, c);
    }

    /// Loads the selected fiber's dump into the detail pane and resets
    /// the scroll; with nothing to select this is a no-op.
    pub fn on_fiber_change(&mut self)
        requires
            old(self).wf(),
        ensures
            final(self).zmx_addr == old(self).zmx_addr,
            final(self).fibers == old(self).fibers,
            final(self).fiber_dump_all == old(self).fiber_dump_all,
            final(self).fiber_counts == old(self).fiber_counts,
            final(self).wf(),
            if old(self).fibers.selected < old(self).fiber_dump_all@.len() {
                &&& final(self).selected_fiber_dump.0@ == old(self).fiber_dump_all@[old(
                    self,
                ).fibers.selected as int]@
                &&& final(self).selected_fiber_dump.1 == dump_height(
                    old(self).fiber_dump_all@[old(self).fibers.selected as int]@,
                )
                &&& final(self).scroll == 0
            } else {
                &&& final(self).selected_fiber_dump == old(self).selected_fiber_dump
                &&& final(self).scroll == old(self).scroll
            },
    {
        let n = self.fibers.selected;
        if n < self.fiber_dump_all.len() {
            self.selected_fiber_dump = ZMXTab::prepare_dump(self.fiber_dump_all[n].clone());
            self.scroll = 0;
        }
    }

    /// Moves the fiber selection one up and reloads the detail pane.
    pub fn select_prev_fiber(&mut self)
        requires
            old(self).wf(),
        ensures
            selection_moved(
                *old(self),
                *final(self),
                if old(self).fibers.selected > 0 {
                    (old(self).fibers.selected - 1) as int
                } else {
                    0int
                },
            ),
    {
        self.fibers.select_previous();
        self.on_fiber_change();
    }

    /// Moves the fiber selection one down and reloads the detail pane.
    pub fn select_next_fiber(&mut self)
        requires
            old(self).wf(),
        ensures
            selection_moved(
                *old(self),
                *final(self),
                if old(self).fibers.selected + 1 < old(self).fibers.items@.len() {
                    old(self).fibers.selected + 1
                } else {
                    old(self).fibers.selected as int
                },
            ),
    {
        self.fibers.select_next();
        self.on_fiber_change();
    }

    /// Replaces the rendered forest with a fresh dump: one line per
    /// record in depth-first order, selection and scroll reset to the
    /// first line, its dump text loaded into the detail pane.
    pub fn dump_fibers(&mut self, fd: Vec<Fiber>)
        ensures
            dumped(*old(self), *final(self), fd@),
    {
        self.scroll = 0;
        let list = printable_tree(&fd);
        let mut fib_labels: Vec<String> = Vec::new();
        let mut fib_dumps: Vec<String> = Vec::new();
        let mut k: usize = 0;
        while k < list.len()
            invariant
                k <= list@.len(),
                lines_match(list@, tree_lines(fd@)),
                fib_labels@.len() == k,
                fib_dumps@.len() == k,
                forall|m: int| 0 <= m < k ==> fib_labels@[m]@ == tree_lines(fd@)[m].0,
                forall|m: int| 0 <= m < k ==> fib_dumps@[m]@ == tree_lines(fd@)[m].1,
            decreases list@.len() - k,
        {
            fib_labels.push(list[k].label.clone());
            fib_dumps.push(list[k].dump.clone());
            k = k + 1;
        }
        self.fibers.items = fib_labels;
        self.fibers.selected = 0;
        if fib_dumps.len() > 0 {
            self.selected_fiber_dump = ZMXTab::prepare_dump(fib_dumps[0].clone());
        } else {
            self.selected_fiber_dump = (String::new(), 0);
        }
        self.fiber_dump_all = fib_dumps;
    }

    /// Scrolls the detail pane one line up, stopping at the top.
    pub fn scroll_up(&mut self)
        ensures
            final(self).scroll == if old(self).scroll > 0 {
                (old(self).scroll - 1) as int
            } else {
                0int
            },
            final(self).zmx_addr == old(self).zmx_addr,
            final(self).fibers == old(self).fibers,
            final(self).selected_fiber_dump == old(self).selected_fiber_dump,
            final(self).fiber_dump_all == old(self).fiber_dump_all,
            final(self).fiber_counts == old(self).fiber_counts,
    {
        if self.scroll > 0 {
            self.scroll = self.scroll - 1;
        }
    }

    /// Scrolls the detail pane one line down, stopping at the dump's
    /// reported height.
    pub fn scroll_down(&mut self)
        ensures
            final(self).scroll == if old(self).scroll < old(self).selected_fiber_dump.1 {
                old(self).scroll + 1
            } else {
                old(self).scroll as int
            },
            final(self).zmx_addr == old(self).zmx_addr,
            final(self).fibers == old(self).fibers,
            final(self).selected_fiber_dump == old(self).selected_fiber_dump,
            final(self).fiber_dump_all == old(self).fiber_dump_all,
            final(self).fiber_counts == old(self).fiber_counts,
    {
        if self.scroll < self.selected_fiber_dump.1 {
            self.scroll = self.scroll + 1;
        }
    }

    /// Folds a fresh routine dump into the count window: derives the
    /// per-status counts and appends them as one sample.
    pub fn tick(&mut self, fd: &Vec<Fiber>)
        ensures
            ticked(*old(self), *final(self), fd@),
    {
        let count = count_fibers(fd);
        self.append_fiber_count(count);
    }

    /// Pairs a dump body with the height the detail pane scrolls over.
    pub fn prepare_dump(s: String) -> (r: (String, u16))
        ensures
            r.0@ == s@,
            r.1 == dump_height(s@),
    {
        let n = count_lines(s.as_str());
        let height: u16 = if n > MAX_DUMP_HEIGHT as usize {
            MAX_DUMP_HEIGHT
        } else {
            n as u16
        };
        (s, height)
    }
}

} // verus!
