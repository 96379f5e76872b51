//! The connectivity supervisor.
//!
//! At startup the caller issues one connect request and then polls the link a
//! bounded number of times; running out of polls is fatal. In steady state
//! the link is queried before every cycle, and a lost link gets one
//! disconnect/connect pair and a short pause, without blocking the cycle.
use vstd::prelude::*;

verus! {

/// What the startup wait does after one liveness query.
#[derive(Clone, Copy, Debug, PartialEq, Eq, Structural)]
pub enum WaitStep {
    /// The link is up: startup goes on.
    Connected,
    /// The link is still down: pause one interval, then query again.
    Retry,
    /// Every poll was spent: startup fails.
    Exhausted,
}

/// The bounded wait for the link at startup.
pub struct ConnectWait {
    /// Liveness queries that found the link down so far.
    pub failed_polls: u32,
    /// Queries allowed before giving up.
    pub max_polls: u32,
}

impl ConnectWait {
    /// A wait that allows `max_polls` queries, none spent yet.
    pub fn new(max_polls: u32) -> (r: ConnectWait)
        ensures
            r.failed_polls == 0,
            r.max_polls == max_polls,
    {
        ConnectWait { failed_polls: 0, max_polls }
    }

    /// Whether every allowed query has found the link down.
    pub open spec fn spent(&self) -> bool {
        self.failed_polls >= self.max_polls
    }

    /// Takes the answer of one liveness query. A live link ends the wait; a
    /// down link spends one poll, and the wait is exhausted once
    /// `max_polls` polls have found it down.
    pub fn observe(&mut self, connected: bool) -> (r: WaitStep)
        ensures
            final(self).max_polls == old(self).max_polls,
            connected ==> r == WaitStep::Connected && final(self).failed_polls
                == old(self).failed_polls,
            !connected && old(self).spent() ==> r == WaitStep::Exhausted
                && final(self).failed_polls == old(self).failed_polls,
            !connected && !old(self).spent() ==> final(self).failed_polls == old(
                self,
            ).failed_polls + 1 && r == (if final(self).spent() {
                WaitStep::Exhausted
            } else {
                WaitStep::Retry
            }),
    {
        if connected {
            WaitStep::Connected
        } else if self.failed_polls >= self.max_polls {
            WaitStep::Exhausted
        } else {
            self.failed_polls = self.failed_polls + 1;
            if self.failed_polls >= self.max_polls {
                WaitStep::Exhausted
            } else {
                WaitStep::Retry
            }
        }
    }
}

} // verus!
