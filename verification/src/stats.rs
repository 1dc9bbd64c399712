//! Loss and latency statistics accumulated over one probe session.

use vstd::prelude::*;

verus! {

/// Counters for one probe session: probes sent, replies received, and the
/// sum of round-trip times in milliseconds over the received probes only.
/// The counters only ever grow; they are never reset mid-session.
#[derive(Clone, Copy, Debug)]
pub struct PingStats {
    pub num_sent: u64,
    pub num_received: u64,
    pub total_rtt: u128,
}

impl PingStats {
    /// Well-formedness: a reply is only counted for a probe that was sent,
    /// and the accumulated round-trip time is a sum of at most
    /// `num_received` summands that each fit in a `u64`.
    pub open spec fn wf(self) -> bool {
        &&& self.num_received <= self.num_sent
        &&& self.total_rtt <= self.num_received * u64::MAX
    }

    /// The average round-trip time as a mathematical value: the integer
    /// quotient of the accumulated time by the reply count, and zero while
    /// no reply has been received.
    pub open spec fn avg_rtt_spec(self) -> int {
        if self.num_received == 0 {
            0
        } else {
            self.total_rtt as int / self.num_received as int
        }
    }

    /// Average round-trip time in milliseconds over the received probes;
    /// zero when no reply has been received yet.
    pub fn avg_rtt(self) -> (r: u128)
        ensures
            r == self.avg_rtt_spec(),
    {
        if self.num_received != 0 {
            self.total_rtt / self.num_received as u128
        } else {
            0
        }
    }

    /// How many probes went unanswered: the sent count minus the received
    /// count.
    pub fn total_lost(self) -> (r: u64)
        requires
            self.wf(),
        ensures
            r == self.num_sent - self.num_received,
    {
        self.num_sent - self.num_received
    }

    /// Count one probe as sent.
    pub fn record_sent(&mut self)
        requires
            old(self).wf(),
            old(self).num_sent < u64::MAX,
        ensures
            final(self).wf(),
            final(self).num_sent == old(self).num_sent + 1,
            final(self).num_received == old(self).num_received,
            final(self).total_rtt == old(self).total_rtt,
    {
        self.num_sent = self.num_sent + 1;
    }

    /// Count one reply as received, adding its round-trip time to the
    /// accumulated total.  A reply always answers a probe that was sent,
    /// so the received count stays below the sent count beforehand.
    pub fn record_received(&mut self, rtt_ms: u64)
        requires
            old(self).wf(),
            old(self).num_received < old(self).num_sent,
        ensures
            final(self).wf(),
            final(self).num_sent == old(self).num_sent,
            final(self).num_received == old(self).num_received + 1,
            final(self).total_rtt == old(self).total_rtt + rtt_ms,
    {
        proof {
            lemma_rtt_sum_bound(
                self.num_received as int,
                self.total_rtt as int,
                rtt_ms as int,
            );
        }
        self.num_received = self.num_received + 1;
        self.total_rtt = self.total_rtt + (rtt_ms as u128);
    }
}

impl Default for PingStats {
    /// A fresh session: nothing sent, nothing received, no time accumulated.
    fn default() -> (r: Self)
        ensures
            r.wf(),
            r.num_sent == 0,
            r.num_received == 0,
            r.total_rtt == 0,
    {
        PingStats { num_sent: 0, num_received: 0, total_rtt: 0 }
    }
}

/// Adding one more round-trip time that fits in a `u64` keeps the
/// accumulated total within the bound of one `u64` summand per reply, and
/// that bound itself fits in a `u128`.
proof fn lemma_rtt_sum_bound(nr: int, total: int, rtt: int)
    by (nonlinear_arith)
    requires
        0 <= nr,
        nr + 1 <= u64::MAX,
        total <= nr * u64::MAX,
        0 <= rtt <= u64::MAX,
    ensures
        total + rtt <= (nr + 1) * u64::MAX,
        (nr + 1) * u64::MAX <= u128::MAX,
{
}

/// The loss ratio `total_lost / num_sent` is the complement of the delivery
/// ratio: the lost probes and the received probes partition the sent ones,
/// so `total_lost / num_sent == 1 - num_received / num_sent` as exact
/// fractions, and the ratio lies between zero and one.
pub proof fn lemma_loss_ratio_complement(s: PingStats)
    requires
        s.wf(),
    ensures
        (s.num_sent - s.num_received) + s.num_received == s.num_sent,
        0 <= s.num_sent - s.num_received <= s.num_sent,
{
}

} // verus!
