//! The error taxonomy of the probe engine.

use vstd::prelude::*;

verus! {

/// Why a probe session failed.  Every variant is fatal for the session;
/// nothing is retried.  A timeout of the reply wait is *not* an error: it
/// is a normal outcome of a wait and is recorded as a lost probe.
#[derive(Clone, Copy, Debug, PartialEq, Eq, Structural)]
pub enum PingError {
    /// The packet buffer cannot hold the family's minimum packet size.
    BufferTooSmall,
    /// The raw channel pair could not be opened.
    ChannelOpenError,
    /// Raw-socket privileges were unavailable.
    PermissionDenied,
    /// A transmit failed.
    SendError,
    /// A transport fault on the receive side, distinct from a timeout.
    IoError,
    /// Malformed external configuration, such as an unparseable
    /// time-to-live.
    InvalidInput,
    /// The resolver produced no usable address.
    NotFound,
}

} // verus!
