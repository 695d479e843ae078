//! The shutdown coordinator: one cancellation that any number of triggers
//! may fire, taking effect once.
use vstd::prelude::*;

use crate::monitor::events::Event;

verus! {

/// Merges quit requests from every source (an interrupt, a quit key) into
/// one cancellation. The first firing cancels and yields the terminal
/// `Shutdown` event for the event channel; later firings do nothing.
#[derive(Clone, Copy, Debug, PartialEq, Eq, Structural)]
pub struct ShutdownCoordinator {
    fired: bool,
}

/// The state after a firing: cancelled, whatever it was before.
pub open spec fn fired_state(cancelled: bool) -> bool {
    true
}

/// Whether a firing in state `cancelled` emits the `Shutdown` event.
pub open spec fn fire_emits(cancelled: bool) -> bool {
    !cancelled
}

impl View for ShutdownCoordinator {
    type V = bool;

    /// Whether cancellation has fired.
    closed spec fn view(&self) -> bool {
        self.fired
    }
}

impl ShutdownCoordinator {
    pub fn new() -> (r: ShutdownCoordinator)
        ensures
            r@ == false,
    {
        ShutdownCoordinator { fired: false }
    }

    pub fn is_cancelled(&self) -> (r: bool)
        ensures
            r == self@,
    {
        self.fired
    }

    /// Fires cancellation: the first time, returns the `Shutdown` event to
    /// push onto the event channel; afterwards returns nothing.
    pub fn fire(&mut self) -> (r: Option<Event>)
        ensures
            final(self)@ == fired_state(old(self)@),
            r is Some <==> fire_emits(old(self)@),
            r is Some ==> r matches Some(Event::Shutdown),
    {
        if self.fired {
            None
        } else {
            self.fired = true;
            Some(Event::Shutdown)
        }
    }
}

/// Does the key `ch`, pressed with Ctrl or without, ask to quit? Ctrl-C and
/// a plain `q` do.
pub fn is_quit_key(ch: char, ctrl: bool) -> (r: bool)
    ensures
        r == ((ctrl && ch == 'c') || (!ctrl && ch == 'q')),
{
    if ctrl {
        ch == 'c'
    } else {
        ch == 'q'
    }
}

/// Firing twice has the effect of firing once: the same final state, and
/// the second firing emits nothing, so exactly one `Shutdown` event in all
/// when the first found cancellation not yet fired.
pub proof fn lemma_fire_idempotent(cancelled: bool)
    ensures
        fired_state(fired_state(cancelled)) == fired_state(cancelled),
        !fire_emits(fired_state(cancelled)),
{
}

} // verus!
