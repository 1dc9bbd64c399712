//! Planning the raw transport channel and the receive path for a
//! destination's family.
//!
//! Opening the raw sockets is outside work; what this module pins down is
//! every decision that opening involves: which IP-layer protocol the
//! channel pair binds to, how much kernel-side receive buffering it asks
//! for, whether a time-to-live is applied to the sender, and which
//! receive-side variant replies are read through afterwards.

use vstd::prelude::*;
use crate::family::IpFamily;

verus! {

/// The IP-layer protocol a channel pair binds to.
#[derive(Clone, Copy, Debug, PartialEq, Eq, Structural)]
pub enum ChannelProtocol {
    Icmpv4,
    Icmpv6,
}

/// The receive-side variant replies are read through.  The two variants
/// filter non-matching traffic differently at the OS level; to the engine
/// both are one bounded blocking wait.
#[derive(Clone, Copy, Debug, PartialEq, Eq, Structural)]
pub enum ReceivePath {
    V4,
    V6,
}

/// Bytes of kernel-side receive buffering a channel is opened with: a
/// resource ceiling, not a queue the engine manages.
pub const CHANNEL_BUFFER_SIZE: usize = 1024;

/// Everything channel setup decides: the protocol to bind, the buffering
/// to ask for, and the time-to-live to apply to the sender, if any.
#[derive(Clone, Copy, Debug)]
pub struct ChannelPlan {
    pub protocol: ChannelProtocol,
    pub buffer_size: usize,
    pub ttl: Option<u8>,
}

/// The family a protocol serves.
pub open spec fn protocol_family(p: ChannelProtocol) -> IpFamily {
    match p {
        ChannelProtocol::Icmpv4 => IpFamily::V4,
        ChannelProtocol::Icmpv6 => IpFamily::V6,
    }
}

/// The family a receive path serves.
pub open spec fn receive_path_family(p: ReceivePath) -> IpFamily {
    match p {
        ReceivePath::V4 => IpFamily::V4,
        ReceivePath::V6 => IpFamily::V6,
    }
}

/// The protocol a destination of the given family binds to.
pub open spec fn protocol_for(family: IpFamily) -> ChannelProtocol {
    match family {
        IpFamily::V4 => ChannelProtocol::Icmpv4,
        IpFamily::V6 => ChannelProtocol::Icmpv6,
    }
}

/// The receive path a destination of the given family is read through.
pub open spec fn receive_path_for(family: IpFamily) -> ReceivePath {
    match family {
        IpFamily::V4 => ReceivePath::V4,
        IpFamily::V6 => ReceivePath::V6,
    }
}

/// Decide how to open the channel pair for a destination of `family`:
/// bind the family's own protocol with the fixed buffering, and apply
/// `ttl` to the sender for IPv4 only — the hop limit is not settable
/// here for IPv6, which probes with the platform default.
pub fn plan_channel(family: IpFamily, ttl: u8) -> (r: ChannelPlan)
    ensures
        r.protocol == protocol_for(family),
        protocol_family(r.protocol) == family,
        r.buffer_size == CHANNEL_BUFFER_SIZE,
        family is V4 ==> r.ttl == Some(ttl),
        family is V6 ==> r.ttl is None,
{
    match family {
        IpFamily::V4 => ChannelPlan {
            protocol: ChannelProtocol::Icmpv4,
            buffer_size: CHANNEL_BUFFER_SIZE,
            ttl: Some(ttl),
        },
        IpFamily::V6 => ChannelPlan {
            protocol: ChannelProtocol::Icmpv6,
            buffer_size: CHANNEL_BUFFER_SIZE,
            ttl: None,
        },
    }
}

/// Decide which receive-side variant serves a destination of `family`.
pub fn receive_path(family: IpFamily) -> (r: ReceivePath)
    ensures
        r == receive_path_for(family),
        receive_path_family(r) == family,
{
    match family {
        IpFamily::V4 => ReceivePath::V4,
        IpFamily::V6 => ReceivePath::V6,
    }
}

/// Family consistency: the channel protocol and the receive path planned
/// for one destination both carry the destination's own family, so a
/// session opened for a v4 destination never dispatches through the v6
/// receive path, nor the other way round.
pub proof fn lemma_family_consistent_dispatch(family: IpFamily)
    ensures
        protocol_family(protocol_for(family)) == family,
        receive_path_family(receive_path_for(family)) == family,
        receive_path_for(family) is V4 <==> family is V4,
        receive_path_for(family) is V6 <==> family is V6,
{
}

} // verus!
