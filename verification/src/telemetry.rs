//! The telemetry window kept in memory for analysis: the most recent ticks of
//! the monitoring loop, about two minutes at one tick per second.
use vstd::prelude::*;

verus! {

/// Ticks kept by the window.
pub const WINDOW_CAP: usize = 120;

/// The window after one more tick: the oldest tick leaves when it is full.
pub open spec fn window_after<T>(w: Seq<T>, tick: T) -> Seq<T> {
    if w.len() >= WINDOW_CAP {
        w.drop_first().push(tick)
    } else {
        w.push(tick)
    }
}

/// The window after a run of ticks, from empty.
pub open spec fn window_of<T>(ticks: Seq<T>) -> Seq<T>
    decreases ticks.len(),
{
    if ticks.len() == 0 {
        Seq::empty()
    } else {
        window_after(window_of(ticks.drop_last()), ticks.last())
    }
}

/// A bounded first-in first-out window of ticks.
pub struct TelemetryWindow<T> {
    items: Vec<T>,
}

impl<T> TelemetryWindow<T> {
    #[verifier::type_invariant]
    closed spec fn bounded(self) -> bool {
        self.items.len() <= WINDOW_CAP
    }

    /// The ticks held, oldest first.
    pub closed spec fn view(self) -> Seq<T> {
        self.items@
    }
}

impl<T: Copy> TelemetryWindow<T> {
    /// An empty window.
    pub fn new() -> (w: Self)
        ensures
            w.view() == Seq::<T>::empty(),
    {
        TelemetryWindow { items: Vec::new() }
    }

    /// Adds a tick, dropping the oldest when the window is full.
    pub fn push_tick(&mut self, tick: T)
        ensures
            final(self).view() == window_after(old(self).view(), tick),
            final(self).view().len() <= WINDOW_CAP,
    {
        proof {
            use_type_invariant(&*self);
        }
        let mut items = Vec::new();
        std::mem::swap(&mut items, &mut self.items);
        let ghost before = items@;
        if items.len() >= WINDOW_CAP {
            items.remove(0);
            assert(items@ =~= before.drop_first());
        }
        items.push(tick);
        self.items = items;
    }

    /// A copy of the ticks held, oldest first.
    pub fn recent_window(&self) -> (r: Vec<T>)
        ensures
            r@ == self.view(),
    {
        let mut r: Vec<T> = Vec::new();
        let mut i: usize = 0;
        while i < self.items.len()
            invariant
                i <= self.items@.len(),
                r@ == self.items@.subrange(0, i as int),
            decreases self.items@.len() - i,
        {
            r.push(self.items[i]);
            i = i + 1;
        }
        assert(self.items@.subrange(0, self.items@.len() as int) =~= self.items@);
        r
    }
}

/// The window holds exactly the most recent ticks pushed, oldest first: all
/// of them while there are at most `WINDOW_CAP`, else the last `WINDOW_CAP`.
pub proof fn lemma_window_keeps_latest<T>(ticks: Seq<T>)
    ensures
        window_of(ticks) == (if ticks.len() <= WINDOW_CAP {
            ticks
        } else {
            ticks.subrange(ticks.len() - WINDOW_CAP, ticks.len() as int)
        }),
    decreases ticks.len(),
{
    if ticks.len() > 0 {
        let pre = ticks.drop_last();
        lemma_window_keeps_latest(pre);
        if pre.len() < WINDOW_CAP {
            assert(window_of(ticks) =~= ticks);
        } else if pre.len() == WINDOW_CAP {
            assert(window_of(ticks) =~= ticks.subrange(ticks.len() - WINDOW_CAP, ticks.len() as int));
        } else {
            assert(window_of(ticks) =~= ticks.subrange(ticks.len() - WINDOW_CAP, ticks.len() as int));
        }
    }
}

} // verus!
