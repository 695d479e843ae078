//! Events of the sampling loop, its configuration, and the scheduler that
//! decides at each deadline whether to sample, wait or stop.
use vstd::prelude::*;

use crate::stats::InterfaceStats;

verus! {

/// What the event loop receives, in order.
#[derive(Debug)]
pub enum Event {
    /// A sampled snapshot of every interface.
    Tick(InterfaceStats),
    /// The terminal event: nothing follows it.
    Shutdown,
}

impl Event {
    /// The event for one sampling attempt: a tick carrying the snapshot, or
    /// nothing when the counter source failed, so that the tick is skipped.
    pub fn from_sample(sample: Option<InterfaceStats>) -> (r: Option<Event>)
        ensures
            sample is None ==> r is None,
            sample matches Some(s) ==> r matches Some(Event::Tick(t)) && t@ == s@,
    {
        match sample {
            Some(s) => Some(Event::Tick(s)),
            None => None,
        }
    }
}

/// Sampling cadence: `reader_interval_ms` between samples, divided into
/// `tick_steps` sub-intervals at which cancellation is checked.
#[derive(Clone, Copy, Debug)]
pub struct Config {
    pub reader_interval_ms: u64,
    pub tick_steps: u32,
}

impl Default for Config {
    fn default() -> (r: Config)
        ensures
            r.reader_interval_ms == 1000,
            r.tick_steps == 4,
    {
        Config { reader_interval_ms: 1000, tick_steps: 4 }
    }
}

/// What the sampling context does after waking at a deadline.
#[derive(Clone, Copy, Debug, PartialEq, Eq, Structural)]
pub enum Action {
    /// Take a snapshot and send it as a tick, then wait for the next deadline.
    Sample,
    /// Wait for the next deadline.
    Wait,
    /// Sample no more and leave the sampling context.
    Stop,
}

/// The sampling schedule. Deadlines are absolute, `started_at + t *
/// sub_interval` for sub-tick `t = 1, 2, ...`, so time spent between wakes
/// never shifts later deadlines. Times are in milliseconds of a clock chosen
/// by the caller.
#[derive(Clone, Copy, Debug)]
pub struct Scheduler {
    started_at: u64,
    reader_interval: u64,
    sub_interval: u64,
    tick_steps: u32,
    t: u64,
    next_at: u64,
    stopped: bool,
}

impl Scheduler {
    pub closed spec fn started(&self) -> int {
        self.started_at as int
    }

    pub closed spec fn interval(&self) -> int {
        self.reader_interval as int
    }

    pub closed spec fn sub_interval(&self) -> int {
        self.sub_interval as int
    }

    pub closed spec fn steps(&self) -> int {
        self.tick_steps as int
    }

    /// The sub-tick whose deadline is awaited next.
    pub closed spec fn sub_tick(&self) -> int {
        self.t as int
    }

    pub closed spec fn is_stopped(&self) -> bool {
        self.stopped
    }

    /// The absolute deadline of sub-tick `t`.
    pub open spec fn deadline_of(&self, t: int) -> int {
        self.started() + t * self.sub_interval()
    }

    /// The deadline awaited next.
    pub open spec fn deadline(&self) -> int {
        self.deadline_of(self.sub_tick())
    }

    /// The deadline of the `j`-th sample: every `tick_steps`-th sub-tick
    /// samples.
    pub open spec fn sample_deadline(&self, j: int) -> int {
        self.deadline_of(j * self.steps())
    }

    pub closed spec fn wf(&self) -> bool {
        &&& self.tick_steps > 0
        &&& self.sub_interval == self.reader_interval / (self.tick_steps as u64)
        &&& self.t >= 1
        &&& self.next_at == self.started_at + self.t * self.sub_interval
    }

    /// A schedule that starts at `started_at`, with sub-intervals of
    /// `reader_interval_ms / tick_steps`.
    pub fn new(config: Config, started_at: u64) -> (r: Scheduler)
        requires
            config.tick_steps > 0,
            started_at + config.reader_interval_ms / (config.tick_steps as u64) <= u64::MAX,
        ensures
            r.wf(),
            !r.is_stopped(),
            r.started() == started_at,
            r.interval() == config.reader_interval_ms,
            r.steps() == config.tick_steps,
            r.sub_interval() == config.reader_interval_ms / (config.tick_steps as u64),
            r.sub_tick() == 1,
    {
        let sub_interval = config.reader_interval_ms / (config.tick_steps as u64);
        Scheduler {
            started_at,
            reader_interval: config.reader_interval_ms,
            sub_interval,
            tick_steps: config.tick_steps,
            t: 1,
            next_at: started_at + sub_interval,
            stopped: false,
        }
    }

    /// The deadline awaited next.
    pub fn next_deadline(&self) -> (r: u64)
        requires
            self.wf(),
        ensures
            r == self.deadline(),
    {
        self.next_at
    }

    /// How long to wait, at time `now`, for the next deadline: nothing when
    /// it has already passed.
    pub fn wait_ms(&self, now: u64) -> (r: u64)
        requires
            self.wf(),
        ensures
            now < self.deadline() ==> r == self.deadline() - now,
            now >= self.deadline() ==> r == 0,
    {
        if now < self.next_at {
            self.next_at - now
        } else {
            0
        }
    }

    pub fn stopped(&self) -> (r: bool)
        ensures
            r == self.is_stopped(),
    {
        self.stopped
    }

    /// Decides what to do on waking at the awaited deadline, given whether
    /// cancellation has fired. Cancellation, once seen, stops the schedule
    /// for good. Otherwise the sub-tick advances by one; when no later
    /// deadline fits in the clock's range (or in the sub-tick counter) the
    /// schedule stops after this one.
    pub fn on_wake(&mut self, cancelled: bool) -> (r: Action)
        requires
            old(self).wf(),
        ensures
            final(self).wf(),
            old(self).is_stopped() ==> r == Action::Stop && *final(self) == *old(self),
            r == Action::Sample ==> old(self).deadline() == old(self).sample_deadline(
                old(self).sub_tick() / old(self).steps(),
            ),
            !old(self).is_stopped() && cancelled ==> r == Action::Stop
                && final(self).is_stopped(),
            !old(self).is_stopped() && !cancelled ==> {
                &&& r == if old(self).sub_tick() % old(self).steps() == 0 {
                    Action::Sample
                } else {
                    Action::Wait
                }
                &&& final(self).started() == old(self).started()
                &&& final(self).interval() == old(self).interval()
                &&& final(self).sub_interval() == old(self).sub_interval()
                &&& final(self).steps() == old(self).steps()
                &&& !final(self).is_stopped() ==> final(self).sub_tick() == old(self).sub_tick()
                    + 1
                &&& final(self).is_stopped() <==> (old(self).deadline() + old(self).sub_interval()
                    > u64::MAX || old(self).sub_tick() == u64::MAX)
            },
    {
        if self.stopped {
            return Action::Stop;
        }
        if cancelled {
            self.stopped = true;
            return Action::Stop;
        }
        let due = self.t % (self.tick_steps as u64) == 0;
        let t = self.t;
        let next_at = self.next_at;
        let sub = self.sub_interval;
        let start = self.started_at;
        if t < u64::MAX && next_at <= u64::MAX - sub {
            assert(next_at + sub == start + (t + 1) * sub) by (nonlinear_arith)
                requires
                    next_at == start + t * sub,
            ;
            self.t = t + 1;
            self.next_at = next_at + sub;
        } else {
            self.stopped = true;
        }
        if due {
            proof {
                let steps = old(self).steps();
                let ti = t as int;
                assert(ti == (ti / steps) * steps) by (nonlinear_arith)
                    requires
                        steps > 0,
                        ti % steps == 0,
                ;
            }
            Action::Sample
        } else {
            Action::Wait
        }
    }

    /// The consumer is gone: sampling stops.
    pub fn on_channel_closed(&mut self)
        requires
            old(self).wf(),
        ensures
            final(self).wf(),
            final(self).is_stopped(),
    {
        self.stopped = true;
    }
}

/// Sample deadlines fall exactly `reader_interval` apart and never drift:
/// the `j`-th lies at `started + j * reader_interval`, however long each wake
/// took. This holds where the interval divides into whole sub-intervals.
pub proof fn lemma_samples_reader_interval_apart(s: Scheduler, j: int)
    requires
        s.wf(),
        s.interval() % s.steps() == 0,
    ensures
        s.sample_deadline(j) == s.started() + j * s.interval(),
        s.sample_deadline(j + 1) == s.sample_deadline(j) + s.interval(),
{
    let steps = s.steps();
    let sub = s.sub_interval();
    assert(sub * steps == s.interval()) by (nonlinear_arith)
        requires
            steps > 0,
            sub == s.interval() / steps,
            s.interval() % steps == 0,
    ;
    assert(j * steps * sub == j * s.interval()) by (nonlinear_arith)
        requires
            sub * steps == s.interval(),
    ;
    assert((j + 1) * steps * sub == j * steps * sub + s.interval()) by (nonlinear_arith)
        requires
            sub * steps == s.interval(),
    ;
}

/// A cancellation that fires while the schedule waits for its next deadline
/// (after the previous one) is seen at that deadline, at most one
/// sub-interval later.
pub proof fn lemma_cancellation_seen_within_sub_interval(s: Scheduler, fired_at: int)
    requires
        s.wf(),
        s.deadline_of(s.sub_tick() - 1) <= fired_at,
    ensures
        s.deadline() <= fired_at + s.sub_interval(),
{
    let t = s.sub_tick();
    let sub = s.sub_interval();
    assert(t * sub == (t - 1) * sub + sub) by (nonlinear_arith);
}

} // verus!
