//! The shutdown protocol: a shutdown signal from callers to the accept
//! loop, and a completion signal back, each fired at most once.

use vstd::prelude::*;

verus! {

/// Which of the two signals have fired.
#[derive(Clone, Copy, Debug, PartialEq, Eq, Structural)]
pub struct ShutdownState {
    shutdown_fired: bool,
    done_fired: bool,
}

impl ShutdownState {
    /// Whether shutdown was requested.
    pub closed spec fn requested(&self) -> bool {
        self.shutdown_fired
    }

    /// Whether the accept loop reported that it stopped.
    pub closed spec fn completed(&self) -> bool {
        self.done_fired
    }

    /// Neither signal has fired.
    pub fn new() -> (r: ShutdownState)
        ensures
            !r.requested(),
            !r.completed(),
    {
        ShutdownState { shutdown_fired: false, done_fired: false }
    }

    /// Records a request to shut down; the result tells whether the
    /// shutdown signal is to be fired now, which is so only for the first
    /// request.
    pub fn request_shutdown(&mut self) -> (fire: bool)
        ensures
            fire == !old(self).requested(),
            final(self).requested(),
            final(self).completed() == old(self).completed(),
    {
        let fire = !self.shutdown_fired;
        self.shutdown_fired = true;
        fire
    }

    /// Records that the accept loop stopped; the result tells whether the
    /// completion signal is to be fired now, which is so only the first
    /// time.
    pub fn loop_stopped(&mut self) -> (fire: bool)
        ensures
            fire == !old(self).completed(),
            final(self).completed(),
            final(self).requested() == old(self).requested(),
    {
        let fire = !self.done_fired;
        self.done_fired = true;
        fire
    }

    /// Whether shutdown was requested.
    pub fn is_shutdown_requested(&self) -> (r: bool)
        ensures
            r == self.requested(),
    {
        self.shutdown_fired
    }

    /// Whether waiting callers are to be released.
    pub fn is_done(&self) -> (r: bool)
        ensures
            r == self.completed(),
    {
        self.done_fired
    }
}

} // verus!
