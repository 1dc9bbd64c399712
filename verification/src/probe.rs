//! The probe loop: one state machine that drives the repeated
//! build/send/wait/record cycle.
//!
//! The loop's outside work — transmitting, blocking on the receive side,
//! sleeping the inter-probe interval — is carried out by a driver.  The
//! driver asks the machine what to do at each cycle boundary, performs
//! the action, and reports the outcome back; every decision, and the
//! statistics bookkeeping, happens here under contract.

use vstd::prelude::*;
use crate::family::IpFamily;
use crate::stats::PingStats;
use crate::wait::ReplyEvent;

verus! {

/// The default time-to-live for IPv4 probes.
pub const DEFAULT_TTL: u8 = 64;

/// The default reply timeout, in seconds.
pub const DEFAULT_WAIT_SECS: u64 = 2;

/// The fixed inter-probe interval, in milliseconds.
pub const PROBE_INTERVAL_MS: u64 = 500;

/// Session configuration, fixed before the loop starts.
#[derive(Clone, Copy, Debug)]
pub struct ProbeConfig {
    /// The destination's address family.
    pub family: IpFamily,
    /// Time-to-live for IPv4 probes.
    pub ttl: u8,
    /// How long one reply wait may block, in milliseconds.
    pub timeout_ms: u64,
    /// Milliseconds slept between cycles.
    pub interval_ms: u64,
    /// Stop after this many probes; `None` runs until cancelled.
    pub probe_count: Option<u64>,
}

/// Where in a cycle the loop stands.
#[derive(Clone, Copy, Debug, PartialEq, Eq, Structural)]
pub enum ProbePhase {
    /// Before the first cycle.
    Idle,
    /// A packet is being built and transmitted.
    Sending,
    /// The probe is out; the reply wait is running.
    AwaitingReply,
    /// The cycle's outcome is recorded; the inter-probe sleep runs before
    /// the next cycle begins.
    Recorded,
    /// Terminal: the count limit was reached, a cancellation was
    /// observed, or the session failed.
    Stopped,
}

/// What the driver is to do next, decided at a cycle boundary.
#[derive(Clone, Copy, Debug, PartialEq, Eq, Structural)]
pub enum ProbeAction {
    /// Build a fresh echo request and transmit it.
    SendProbe,
    /// The session is over.
    Stop,
}

/// The probe loop's state: the fixed configuration, the accumulated
/// statistics, and the phase within the current cycle.
#[derive(Clone, Copy, Debug)]
pub struct ProbeLoop {
    pub config: ProbeConfig,
    pub stats: PingStats,
    pub phase: ProbePhase,
}

impl ProbeLoop {
    /// The machine's invariant, established at construction and preserved
    /// by every transition: the statistics are well formed, the sent
    /// count never passes a configured probe count and sits strictly
    /// below it while a send is under way, and while a reply is awaited
    /// the probe in flight is already counted as sent.
    pub open spec fn inv(self) -> bool {
        &&& self.stats.wf()
        &&& self.config.probe_count matches Some(c) ==> self.stats.num_sent <= c
        &&& self.phase is Sending ==> (self.config.probe_count matches Some(c)
            ==> self.stats.num_sent < c)
        &&& self.phase is Sending ==> self.stats.num_sent < u64::MAX
        &&& self.phase is AwaitingReply ==> self.stats.num_received < self.stats.num_sent
    }

    /// Whether the loop must stop at a cycle boundary: the driver
    /// observed a cancellation, or the configured probe count has been
    /// reached.
    pub open spec fn stop_due(self, cancelled: bool) -> bool {
        cancelled || match self.config.probe_count {
            Some(c) => self.stats.num_sent >= c,
            None => false,
        }
    }

    /// A fresh session: nothing sent, nothing received, first cycle not
    /// yet begun.
    pub fn new(config: ProbeConfig) -> (r: Self)
        ensures
            r.inv(),
            r.config == config,
            r.phase is Idle,
            r.stats.num_sent == 0,
            r.stats.num_received == 0,
            r.stats.total_rtt == 0,
    {
        ProbeLoop { config, stats: PingStats::default(), phase: ProbePhase::Idle }
    }

    /// Decide, at a cycle boundary, whether another probe goes out.  The
    /// stop condition — a cancellation the driver observed between
    /// cycles, or the probe count reached — is checked here and nowhere
    /// else; outcomes of earlier cycles play no part in it.
    pub fn begin_cycle(&mut self, cancelled: bool) -> (r: ProbeAction)
        requires
            old(self).inv(),
            old(self).phase is Idle || old(self).phase is Recorded,
            old(self).stats.num_sent < u64::MAX,
        ensures
            final(self).inv(),
            final(self).config == old(self).config,
            final(self).stats == old(self).stats,
            old(self).stop_due(cancelled) ==> r is Stop && final(self).phase is Stopped,
            !old(self).stop_due(cancelled) ==> r is SendProbe && final(self).phase is Sending,
    {
        let stop = cancelled || match self.config.probe_count {
            Some(c) => self.stats.num_sent >= c,
            None => false,
        };
        if stop {
            self.phase = ProbePhase::Stopped;
            ProbeAction::Stop
        } else {
            self.phase = ProbePhase::Sending;
            ProbeAction::SendProbe
        }
    }

    /// The driver transmitted the probe: count it as sent and start
    /// awaiting the reply.
    pub fn record_sent(&mut self)
        requires
            old(self).inv(),
            old(self).phase is Sending,
        ensures
            final(self).inv(),
            final(self).config == old(self).config,
            final(self).phase is AwaitingReply,
            final(self).stats.num_sent == old(self).stats.num_sent + 1,
            final(self).stats.num_received == old(self).stats.num_received,
            final(self).stats.total_rtt == old(self).stats.total_rtt,
    {
        self.stats.record_sent();
        self.phase = ProbePhase::AwaitingReply;
    }

    /// The reply wait finished: on `Received` count the reply and add the
    /// measured round-trip time; on `TimedOut` the probe stays a lost
    /// one.  Neither outcome touches the sent count.
    pub fn record_outcome(&mut self, outcome: ReplyEvent, rtt_ms: u64)
        requires
            old(self).inv(),
            old(self).phase is AwaitingReply,
        ensures
            final(self).inv(),
            final(self).config == old(self).config,
            final(self).phase is Recorded,
            final(self).stats.num_sent == old(self).stats.num_sent,
            outcome is Received ==> final(self).stats.num_received == old(
                self,
            ).stats.num_received + 1 && final(self).stats.total_rtt == old(
                self,
            ).stats.total_rtt + rtt_ms,
            outcome is TimedOut ==> final(self).stats == old(self).stats,
    {
        match outcome {
            ReplyEvent::Received => {
                self.stats.record_received(rtt_ms);
            }
            ReplyEvent::TimedOut => {}
        }
        self.phase = ProbePhase::Recorded;
    }

    /// A fatal session error — a failed transmit, a transport fault on
    /// the receive side — ends the loop at once; nothing is retried.
    pub fn abort(&mut self)
        requires
            old(self).inv(),
        ensures
            final(self).inv(),
            final(self).config == old(self).config,
            final(self).stats == old(self).stats,
            final(self).phase is Stopped,
    {
        self.phase = ProbePhase::Stopped;
    }
}

/// With a probe count configured and no cancellation observed, the loop
/// stops exactly when that many probes have been sent.  Recording an
/// outcome never changes the sent count, so whatever the individual
/// outcomes were, an uncancelled session performs exactly `probe_count`
/// send cycles before the cycle-boundary check stops it.
pub proof fn lemma_stops_exactly_at_count(s: ProbeLoop, c: u64)
    requires
        s.inv(),
        s.config.probe_count == Some(c),
    ensures
        s.stop_due(false) <==> s.stats.num_sent == c,
{
}

} // verus!
