//! The sampling loop's state machines: scheduling, shutdown, and the event
//! loop that turns ticks into deltas and history.
use vstd::prelude::*;

use crate::history::{magnitude, next_tick, slide, History, Metric};
use crate::stats::{snapshot_delta, InterfaceInfo, InterfaceStat, InterfaceStats};
use crate::monitor::events::Event;

pub mod events;
pub mod shutdown;

verus! {

/// The event loop's two states.
#[derive(Clone, Copy, Debug, PartialEq, Eq, Structural)]
pub enum LoopState {
    Running,
    Shutdown,
}

/// The event loop: the single consumer of the event channel, and the only
/// place where deltas are computed and the history changes.
#[derive(Debug)]
pub struct Monitor {
    prev_stats: InterfaceStats,
    history: History,
    state: LoopState,
}

/// `after` is `before` with one delta sample `diff` pushed.
pub open spec fn pushed(before: History, after: History, diff: Seq<Option<InterfaceStat>>) -> bool {
    &&& after.wf()
    &&& after.tick() == next_tick(before.tick())
    &&& after.capacity() == before.capacity()
    &&& after.interfaces() == before.interfaces()
    &&& forall|m: Metric, i: int|
        0 <= i < diff.len() ==> #[trigger] after.window(m, i) == slide(
            before.window(m, i),
            (after.tick(), magnitude(diff[i], m)),
        )
}

impl Monitor {
    pub closed spec fn spec_state(&self) -> LoopState {
        self.state
    }

    /// The snapshot that the next delta is taken from.
    pub closed spec fn previous(&self) -> Seq<Option<InterfaceStat>> {
        self.prev_stats@
    }

    pub closed spec fn spec_history(&self) -> History {
        self.history
    }

    pub open spec fn wf(&self) -> bool {
        &&& self.spec_history().wf()
        &&& self.previous().len() == self.spec_history().interfaces()
    }

    /// A running loop over the interfaces of `info`, whose first delta is
    /// taken from `initial_stats`, charting `n_histories` points per window.
    pub fn new(info: &InterfaceInfo, initial_stats: InterfaceStats, n_histories: usize) -> (r:
        Monitor)
        requires
            initial_stats@.len() == info@.len(),
        ensures
            r.wf(),
            r.spec_state() == LoopState::Running,
            r.previous() == initial_stats@,
            r.spec_history().is_empty_for(info@.len(), n_histories as nat),
    {
        Monitor {
            prev_stats: initial_stats,
            history: History::empty(info, n_histories),
            state: LoopState::Running,
        }
    }

    pub fn is_running(&self) -> (r: bool)
        ensures
            r == (self.spec_state() == LoopState::Running),
    {
        self.state == LoopState::Running
    }

    pub fn history(&self) -> (r: &History)
        ensures
            *r == self.spec_history(),
    {
        &self.history
    }

    /// Handles one event. A tick, while running, yields the delta from the
    /// previous snapshot for the display, records it in the history, and
    /// keeps the tick's snapshot as the previous one. `Shutdown` moves to the
    /// terminal state; once there, every event is ignored.
    pub fn step(&mut self, event: Event) -> (r: Option<InterfaceStats>)
        requires
            old(self).wf(),
            event matches Event::Tick(s) ==> s@.len() == old(self).previous().len(),
        ensures
            final(self).wf(),
            old(self).spec_state() == LoopState::Shutdown ==> r is None && final(self).spec_state()
                == LoopState::Shutdown && final(self).previous() == old(self).previous()
                && final(self).spec_history() == old(self).spec_history(),
            old(self).spec_state() == LoopState::Running ==> match event {
                Event::Shutdown => r is None && final(self).spec_state() == LoopState::Shutdown
                    && final(self).previous() == old(self).previous()
                    && final(self).spec_history() == old(self).spec_history(),
                Event::Tick(s) => {
                    &&& final(self).spec_state() == LoopState::Running
                    &&& r matches Some(d) && d@ == snapshot_delta(old(self).previous(), s@)
                    &&& final(self).previous() == s@
                    &&& pushed(old(self).spec_history(), final(self).spec_history(), r.unwrap()@)
                },
            },
    {
        if self.state == LoopState::Shutdown {
            return None;
        }
        match event {
            Event::Shutdown => {
                self.state = LoopState::Shutdown;
                None
            },
            Event::Tick(stats) => {
                let diff = stats.delta_from(&self.prev_stats);
                self.history.push_back_pop_front(&diff);
                self.prev_stats = stats;
                Some(diff)
            },
        }
    }
}

} // verus!
