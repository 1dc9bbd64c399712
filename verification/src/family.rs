//! The address family tag of a resolved destination.

use vstd::prelude::*;

verus! {

/// The family of the destination address a probe session was opened for.
/// It is chosen once, before the session starts, and every
/// family-dependent dispatch — packet layout, channel protocol, receive
/// path — follows this tag.
#[derive(Clone, Copy, Debug, PartialEq, Eq, Structural)]
pub enum IpFamily {
    V4,
    V6,
}

} // verus!
