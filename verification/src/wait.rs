//! The timeout-bounded reply wait, as a decision procedure over what the
//! receive side observes.
//!
//! The blocking receive itself is outside work; the engine decides what
//! each observation of the receive side means.  An observation is a pair:
//! whether a matching reply has arrived, and how many milliseconds have
//! elapsed since the probe was sent.  A reply is accepted the moment it
//! is seen; with no reply the wait times out exactly once the elapsed
//! time reaches the configured timeout, and goes on otherwise.  A timeout
//! is a normal outcome, not an error.

use vstd::prelude::*;

verus! {

/// The outcome of one reply wait.
#[derive(Clone, Copy, Debug, PartialEq, Eq, Structural)]
pub enum ReplyEvent {
    /// A reply was observed through the family-matched receive path
    /// within the channel's own protocol filter.
    Received,
    /// The configured timeout elapsed with no reply.
    TimedOut,
}

/// What one observation of the receive side decides.
pub open spec fn wait_decision(timeout_ms: u64, reply_arrived: bool, elapsed_ms: u64) -> Option<
    ReplyEvent,
> {
    if reply_arrived {
        Some(ReplyEvent::Received)
    } else if elapsed_ms >= timeout_ms {
        Some(ReplyEvent::TimedOut)
    } else {
        None
    }
}

/// One wait for the reply to one probe: the configured timeout, and the
/// elapsed time the latest observation reported.
#[derive(Clone, Copy, Debug)]
pub struct ReplyWait {
    pub timeout_ms: u64,
    pub elapsed_ms: u64,
}

impl ReplyWait {
    /// Start waiting for the reply to a probe sent just now.
    pub fn begin(timeout_ms: u64) -> (r: Self)
        ensures
            r.timeout_ms == timeout_ms,
            r.elapsed_ms == 0,
    {
        ReplyWait { timeout_ms, elapsed_ms: 0 }
    }

    /// Feed one observation of the receive side into the wait.  Elapsed
    /// time never runs backwards, so each observation reports at least
    /// the elapsed time of the one before.  `None` means the wait goes
    /// on; the driver blocks on the receive side again, for at most the
    /// time remaining.
    pub fn observe(&mut self, reply_arrived: bool, now_elapsed_ms: u64) -> (r: Option<ReplyEvent>)
        requires
            old(self).elapsed_ms <= now_elapsed_ms,
        ensures
            final(self).timeout_ms == old(self).timeout_ms,
            final(self).elapsed_ms == now_elapsed_ms,
            r == wait_decision(old(self).timeout_ms, reply_arrived, now_elapsed_ms),
    {
        self.elapsed_ms = now_elapsed_ms;
        if reply_arrived {
            Some(ReplyEvent::Received)
        } else if now_elapsed_ms >= self.timeout_ms {
            Some(ReplyEvent::TimedOut)
        } else {
            None
        }
    }

    /// How many milliseconds of the timeout are left to block for.
    pub fn remaining_ms(&self) -> (r: u64)
        ensures
            r == if self.elapsed_ms < self.timeout_ms {
                self.timeout_ms - self.elapsed_ms
            } else {
                0
            },
    {
        if self.elapsed_ms < self.timeout_ms {
            self.timeout_ms - self.elapsed_ms
        } else {
            0
        }
    }
}

/// A wait with timeout `T` that observes no reply times out neither early
/// nor late: it never decides `TimedOut` while a reply could still be
/// accepted before `T`; a reply, whenever it is seen, is accepted at
/// once; and the first reply-less observation at or past `T` decides
/// `TimedOut` immediately.
pub proof fn lemma_timeout_bounds(timeout_ms: u64, reply_arrived: bool, elapsed_ms: u64)
    ensures
        wait_decision(timeout_ms, reply_arrived, elapsed_ms) == Some(ReplyEvent::TimedOut)
            ==> !reply_arrived && elapsed_ms >= timeout_ms,
        reply_arrived ==> wait_decision(timeout_ms, reply_arrived, elapsed_ms) == Some(
            ReplyEvent::Received,
        ),
        !reply_arrived && elapsed_ms >= timeout_ms ==> wait_decision(
            timeout_ms,
            reply_arrived,
            elapsed_ms,
        ) == Some(ReplyEvent::TimedOut),
        !reply_arrived && elapsed_ms < timeout_ms ==> wait_decision(
            timeout_ms,
            reply_arrived,
            elapsed_ms,
        ) is None,
{
}

} // verus!
