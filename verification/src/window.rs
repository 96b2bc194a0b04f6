//! The bounded history buffer behind every chart: a rolling window that
//! keeps the most recent samples of a timestamped metric.
//!
//! Eviction is checked *before* insertion: a push first drops the oldest
//! sample if the current length already exceeds `max_size`, then appends.
//! The steady-state occupancy is therefore `max_size + 1`, not `max_size`;
//! this off-by-one is an observable contract of the design, not a defect.

use vstd::prelude::*;
use std::collections::VecDeque;

verus! {

/// What one evict-before-insert push leaves in a window that held `s`.
pub open spec fn window_pushed<T>(s: Seq<T>, max_size: nat, x: T) -> Seq<T> {
    if s.len() > max_size {
        s.drop_first().push(x)
    } else {
        s.push(x)
    }
}

/// All of `xs` pushed in order into a window that held `s`.
pub open spec fn window_pushed_all<T>(s: Seq<T>, max_size: nat, xs: Seq<T>) -> Seq<T>
    decreases xs.len(),
{
    if xs.len() == 0 {
        s
    } else {
        window_pushed_all(window_pushed(s, max_size, xs.first()), max_size, xs.drop_first())
    }
}

/// Appends one sample, dropping the oldest first when the window already
/// holds more than `max_size` samples.
pub fn window_push<T>(buf: &mut VecDeque<T>, max_size: usize, sample: T)
    ensures
        final(buf)@ == window_pushed(old(buf)@, max_size as nat, sample),
{
    if buf.len() > max_size {
        buf.pop_front();
    }
    buf.push_back(sample);
}

/// Closed form of a run of pushes: the window ends up holding the last
/// `min(old length + pushes, max_size + 1)` elements of old contents
/// followed by pushed samples, in order.
pub proof fn lemma_window_closed_form<T>(s: Seq<T>, max_size: nat, xs: Seq<T>)
    requires
        s.len() <= max_size + 1,
    ensures
        ({
            let all = s + xs;
            let keep = vstd::math::min(all.len() as int, max_size + 1 as int);
            window_pushed_all(s, max_size, xs) =~= all.subrange(all.len() - keep, all.len() as int)
        }),
    decreases xs.len(),
{
    let all = s + xs;
    let keep = vstd::math::min(all.len() as int, max_size + 1 as int);
    if xs.len() == 0 {
        assert(window_pushed_all(s, max_size, xs) =~= all.subrange(
            all.len() - keep,
            all.len() as int,
        ));
    } else {
        let s1 = window_pushed(s, max_size, xs.first());
        let xs1 = xs.drop_first();
        lemma_window_closed_form(s1, max_size, xs1);
        if s.len() > max_size {
            assert(s1 + xs1 =~= all.drop_first());
        } else {
            assert(s1 + xs1 =~= all);
        }
    }
}

/// A window that started within the bound stays within it: after any run
/// of pushes the length is at most `max_size + 1`.
pub proof fn lemma_window_bounded<T>(s: Seq<T>, max_size: nat, xs: Seq<T>)
    requires
        s.len() <= max_size + 1,
    ensures
        window_pushed_all(s, max_size, xs).len() <= max_size + 1,
{
    lemma_window_closed_form(s, max_size, xs);
}

/// Retention law of the rolling window: once at least `max_size + 1`
/// samples have been pushed into an initially empty window, it holds
/// exactly the most recent `max_size + 1` of them, oldest first.  In
/// particular, after `max_size + 2` pushes the length is `max_size + 1`.
pub proof fn lemma_window_retention<T>(max_size: nat, xs: Seq<T>)
    requires
        xs.len() >= max_size + 1,
    ensures
        window_pushed_all(Seq::empty(), max_size, xs) =~= xs.subrange(
            xs.len() - (max_size + 1),
            xs.len() as int,
        ),
{
    lemma_window_closed_form(Seq::empty(), max_size, xs);
    assert(Seq::empty() + xs =~= xs);
    assert(window_pushed_all(Seq::empty(), max_size, xs) =~= (Seq::empty() + xs).subrange(
        xs.len() - (max_size + 1),
        xs.len() as int,
    ));
}

} // verus!
