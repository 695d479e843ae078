//! The bounded chart history: for each metric and interface, a window of the
//! latest points, of a length fixed when the history is built.
use vstd::prelude::*;
use slice_deque::SliceDeque;

use crate::stats::{InterfaceInfo, InterfaceStat, InterfaceStats};

verus! {

/// `SliceDeque` of the slice_deque crate, a double-ended queue over a
/// contiguous buffer; its contents are known through `points_of`.
#[verifier::external_type_specification]
#[verifier::external_body]
#[verifier::reject_recursive_types(T)]
pub struct ExSliceDeque<T>(SliceDeque<T>);

/// A chart point: the tick it was recorded at, and its magnitude.
pub type Point = (u64, u64);

/// The magnitude recorded for a slot without data.
pub const NO_DATA: u64 = 0;

/// The points a window holds, front (oldest) first.
pub uninterp spec fn points_of(d: SliceDeque<(u64, u64)>) -> Seq<(u64, u64)>;

/// Relies on SliceDeque::new: a new deque is empty.
#[verifier::external_body]
fn deque_new() -> (d: SliceDeque<Point>)
    ensures
        points_of(d) == Seq::<Point>::empty(),
{
    SliceDeque::new()
}

/// Relies on SliceDeque::push_back: the value is appended at the back.
#[verifier::external_body]
fn deque_push_back(d: &mut SliceDeque<Point>, p: Point)
    ensures
        points_of(*final(d)) == points_of(*old(d)).push(p),
{
    d.push_back(p)
}

/// Relies on SliceDeque::pop_front: the front value is removed and returned,
/// and an empty deque is left as it is.
#[verifier::external_body]
fn deque_pop_front(d: &mut SliceDeque<Point>) -> (r: Option<Point>)
    ensures
        points_of(*old(d)).len() == 0 ==> r is None && points_of(*final(d)) == points_of(*old(d)),
        points_of(*old(d)).len() > 0 ==> r == Some(points_of(*old(d))[0]) && points_of(*final(d))
            == points_of(*old(d)).drop_first(),
{
    d.pop_front()
}

/// Relies on SliceDeque::as_slice: the slice holds the deque's values in order.
#[verifier::external_body]
fn deque_to_vec(d: &SliceDeque<Point>) -> (r: Vec<Point>)
    ensures
        r@ == points_of(*d),
{
    d.as_slice().to_vec()
}

/// One of the two charted counters.
#[derive(Clone, Copy, Debug, PartialEq, Eq, Hash, Structural)]
pub enum Metric {
    Rx,
    Tx,
}

impl Metric {
    /// Every metric, in chart order.
    pub fn variants() -> (r: [Metric; 2])
        ensures
            r@ == seq![Metric::Rx, Metric::Tx],
    {
        let r = [Metric::Rx, Metric::Tx];
        assert(r@ =~= seq![Metric::Rx, Metric::Tx]);
        r
    }

    /// The chart title of this metric.
    pub fn label(&self) -> (r: &'static str)
        ensures
            *self == Metric::Rx ==> r@ == seq!['r', 'x'],
            *self == Metric::Tx ==> r@ == seq!['t', 'x'],
    {
        proof {
            reveal_strlit("rx");
            reveal_strlit("tx");
        }
        match self {
            Metric::Rx => "rx",
            Metric::Tx => "tx",
        }
    }

    /// The counter of `stat` that this metric charts.
    pub open spec fn spec_of(self, stat: InterfaceStat) -> u64 {
        match self {
            Metric::Rx => stat.rx,
            Metric::Tx => stat.tx,
        }
    }

    pub fn of(&self, stat: &InterfaceStat) -> (r: u64)
        ensures
            r == self.spec_of(*stat),
    {
        match self {
            Metric::Rx => stat.rx,
            Metric::Tx => stat.tx,
        }
    }
}

fn magnitude_of(slot: &Option<InterfaceStat>, metric: Metric) -> (r: u64)
    ensures
        r == magnitude(*slot, metric),
{
    match slot {
        Some(s) => {
            let v = metric.of(s);
            if v >= 1 {
                v
            } else {
                1
            }
        },
        None => NO_DATA,
    }
}

/// The magnitude charted for one delta slot: the delta with a floor of 1, so
/// that its logarithm is defined, or `NO_DATA` for an absent slot.
pub open spec fn magnitude(slot: Option<InterfaceStat>, metric: Metric) -> u64 {
    match slot {
        Some(s) => if metric.spec_of(s) >= 1 {
            metric.spec_of(s)
        } else {
            1
        },
        None => NO_DATA,
    }
}

/// A window after one push: the oldest point leaves and `p` comes in. An
/// empty window stays empty.
pub open spec fn slide(w: Seq<Point>, p: Point) -> Seq<Point> {
    if w.len() == 0 {
        w
    } else {
        w.drop_first().push(p)
    }
}

/// A window after pushing `ps` in order.
pub open spec fn slide_all(w: Seq<Point>, ps: Seq<Point>) -> Seq<Point>
    decreases ps.len(),
{
    if ps.len() == 0 {
        w
    } else {
        slide(slide_all(w, ps.drop_last()), ps.last())
    }
}

/// Pushing any sequence of points leaves the length of a window as it was.
pub proof fn lemma_slide_keeps_length(w: Seq<Point>, ps: Seq<Point>)
    ensures
        slide_all(w, ps).len() == w.len(),
    decreases ps.len(),
{
    if ps.len() > 0 {
        lemma_slide_keeps_length(w, ps.drop_last());
    }
}

/// After at least as many pushes as its length, a window holds exactly the
/// latest points pushed, oldest first.
pub proof fn lemma_slide_keeps_latest(w: Seq<Point>, ps: Seq<Point>)
    requires
        ps.len() >= w.len(),
    ensures
        slide_all(w, ps) == ps.subrange(ps.len() - w.len(), ps.len() as int),
    decreases ps.len(),
{
    if w.len() == 0 {
        lemma_slide_keeps_length(w, ps);
        assert(slide_all(w, ps) =~= ps.subrange(ps.len() - w.len(), ps.len() as int));
    } else if ps.len() == w.len() {
        lemma_slide_keeps_suffix(w, ps);
        assert(w.subrange(ps.len() as int, w.len() as int) + ps =~= ps.subrange(
            ps.len() - w.len(),
            ps.len() as int,
        ));
    } else {
        let prev = ps.drop_last();
        lemma_slide_keeps_latest(w, prev);
        assert(slide_all(w, ps) =~= ps.subrange(ps.len() - w.len(), ps.len() as int));
    }
}

/// While fewer points than its length have been pushed, a window holds the
/// rest of its old points followed by the new ones.
proof fn lemma_slide_keeps_suffix(w: Seq<Point>, ps: Seq<Point>)
    requires
        ps.len() <= w.len(),
        w.len() > 0,
    ensures
        slide_all(w, ps) == w.subrange(ps.len() as int, w.len() as int) + ps,
    decreases ps.len(),
{
    if ps.len() == 0 {
        assert(w.subrange(0, w.len() as int) + ps =~= w);
    } else {
        lemma_slide_keeps_suffix(w, ps.drop_last());
        lemma_slide_keeps_length(w, ps.drop_last());
        assert(slide_all(w, ps) =~= w.subrange(ps.len() as int, w.len() as int) + ps);
    }
}

/// The windows of one metric, one per interface.
#[derive(Debug)]
pub struct MetricHistory {
    data: Vec<SliceDeque<Point>>,
}

/// A window of `n` blank points.
pub open spec fn blank_window(n: nat) -> Seq<Point> {
    Seq::new(n, |k: int| (0u64, NO_DATA))
}

impl MetricHistory {
    /// The window of each interface, in interface order.
    pub closed spec fn windows(&self) -> Seq<Seq<Point>> {
        Seq::new(self.data@.len(), |i: int| points_of(self.data@[i]))
    }

    /// One window of `n_histories` blank points for each interface of `info`.
    pub fn empty(info: &InterfaceInfo, n_histories: usize) -> (r: MetricHistory)
        ensures
            r.windows() == Seq::new(info@.len(), |i: int| blank_window(n_histories as nat)),
    {
        let mut data: Vec<SliceDeque<Point>> = Vec::new();
        let mut i: usize = 0;
        while i < info.len()
            invariant
                i <= info@.len(),
                data@.len() == i,
                forall|k: int| 0 <= k < i ==> points_of(#[trigger] data@[k]) == blank_window(
                    n_histories as nat,
                ),
            decreases info@.len() - i,
        {
            let mut d = deque_new();
            let mut j: usize = 0;
            while j < n_histories
                invariant
                    j <= n_histories,
                    points_of(d) == blank_window(j as nat),
                decreases n_histories - j,
            {
                deque_push_back(&mut d, (0, NO_DATA));
                j += 1;
                assert(points_of(d) =~= blank_window(j as nat));
            }
            data.push(d);
            i += 1;
        }
        let r = MetricHistory { data };
        assert(r.windows() =~= Seq::new(info@.len(), |i: int| blank_window(n_histories as nat)));
        r
    }

    /// The points of the window of interface `index`, oldest first.
    pub fn get_data(&self, index: usize) -> (r: Vec<Point>)
        requires
            index < self.windows().len(),
        ensures
            r@ == self.windows()[index as int],
    {
        deque_to_vec(&self.data[index])
    }

    /// Slides `(tick, magnitude)` of each slot of `diff` into the window of
    /// its interface.
    fn slide_in(&mut self, diff: &InterfaceStats, metric: Metric, tick: u64)
        requires
            diff@.len() == old(self).windows().len(),
        ensures
            final(self).windows().len() == old(self).windows().len(),
            forall|i: int|
                0 <= i < diff@.len() ==> #[trigger] final(self).windows()[i] == slide(
                    old(self).windows()[i],
                    (tick, magnitude(diff@[i], metric)),
                ),
    {
        let mut i: usize = 0;
        while i < self.data.len()
            invariant
                i <= self.data@.len(),
                self.data@.len() == old(self).data@.len(),
                diff@.len() == self.data@.len(),
                forall|k: int|
                    0 <= k < i ==> points_of(#[trigger] self.data@[k]) == slide(
                        points_of(old(self).data@[k]),
                        (tick, magnitude(diff@[k], metric)),
                    ),
                forall|k: int| i <= k < self.data@.len() ==> #[trigger] self.data@[k] == old(self).data@[k],
            decreases self.data@.len() - i,
        {
            let v = magnitude_of(&diff.0[i], metric);
            let d = &mut self.data[i];
            let front = deque_pop_front(d);
            if front.is_some() {
                deque_push_back(d, (tick, v));
            }
            i += 1;
        }
    }
}

/// The chart history of every interface and metric, with the tick counter
/// that gives each new point its x-coordinate.
#[derive(Debug)]
pub struct History {
    current: u64,
    n_histories: usize,
    rx: MetricHistory,
    tx: MetricHistory,
}

/// The tick that follows `t`; the counter stays at its largest value once it
/// gets there.
pub open spec fn next_tick(t: u64) -> u64 {
    if t < u64::MAX {
        (t + 1) as u64
    } else {
        t
    }
}

impl History {
    /// The tick of the latest push (0 before the first).
    pub closed spec fn tick(&self) -> u64 {
        self.current
    }

    /// The fixed length of every window.
    pub closed spec fn capacity(&self) -> nat {
        self.n_histories as nat
    }

    /// The number of interfaces charted.
    pub closed spec fn interfaces(&self) -> nat {
        self.rx.windows().len()
    }

    /// The window of `metric` for interface `index`.
    pub closed spec fn window(&self, metric: Metric, index: int) -> Seq<Point> {
        match metric {
            Metric::Rx => self.rx.windows()[index],
            Metric::Tx => self.tx.windows()[index],
        }
    }

    /// Every window has the capacity's length, and both metrics chart the
    /// same interfaces.
    pub closed spec fn wf(&self) -> bool {
        &&& self.tx.windows().len() == self.rx.windows().len()
        &&& forall|m: Metric, i: int|
            0 <= i < self.interfaces() ==> (#[trigger] self.window(m, i)).len() == self.capacity()
    }

    /// Is this the history of `interfaces` interfaces whose windows hold
    /// `capacity` blank points each, before any push?
    pub open spec fn is_empty_for(&self, interfaces: nat, capacity: nat) -> bool {
        &&& self.wf()
        &&& self.tick() == 0
        &&& self.capacity() == capacity
        &&& self.interfaces() == interfaces
        &&& forall|m: Metric, i: int|
            0 <= i < interfaces ==> #[trigger] self.window(m, i) == blank_window(capacity)
    }

    /// A history of `n_histories` blank points per window, for each interface
    /// of `info` and each metric.
    pub fn empty(info: &InterfaceInfo, n_histories: usize) -> (r: History)
        ensures
            r.is_empty_for(info@.len(), n_histories as nat),
    {
        let rx = MetricHistory::empty(info, n_histories);
        let tx = MetricHistory::empty(info, n_histories);
        History { current: 0, n_histories, rx, tx }
    }

    pub fn current(&self) -> (r: u64)
        ensures
            r == self.tick(),
    {
        self.current
    }

    pub fn n_histories(&self) -> (r: usize)
        ensures
            r == self.capacity(),
    {
        self.n_histories
    }

    /// The points of the window of `metric` for interface `index`, oldest
    /// first.
    pub fn get_data(&self, metric: Metric, index: usize) -> (r: Vec<Point>)
        requires
            self.wf(),
            index < self.interfaces(),
        ensures
            r@ == self.window(metric, index as int),
    {
        match metric {
            Metric::Rx => self.rx.get_data(index),
            Metric::Tx => self.tx.get_data(index),
        }
    }

    /// Records one delta sample: the tick advances, and in each window the
    /// oldest point leaves and the new point, at the new tick, comes in.
    pub fn push_back_pop_front(&mut self, diff: &InterfaceStats)
        requires
            old(self).wf(),
            diff@.len() == old(self).interfaces(),
        ensures
            final(self).wf(),
            final(self).tick() == next_tick(old(self).tick()),
            final(self).capacity() == old(self).capacity(),
            final(self).interfaces() == old(self).interfaces(),
            forall|m: Metric, i: int|
                0 <= i < diff@.len() ==> #[trigger] final(self).window(m, i) == slide(
                    old(self).window(m, i),
                    (final(self).tick(), magnitude(diff@[i], m)),
                ),
    {
        if self.current < u64::MAX {
            self.current = self.current + 1;
        }
        let tick = self.current;
        self.rx.slide_in(diff, Metric::Rx, tick);
        self.tx.slide_in(diff, Metric::Tx, tick);
        assert forall|m: Metric, i: int|
            0 <= i < self.interfaces() implies (#[trigger] self.window(m, i)).len()
            == self.capacity() by {
            assert(old(self).window(m, i).len() == self.capacity());
        }
    }
}

} // verus!
