//! A verified ICMP echo ("ping") probe engine.
//!
//! The engine builds echo-request packets for IPv4 or IPv6 (including the
//! RFC 1071 Internet checksum), plans the family-bound transport channel,
//! decides the outcome of a timeout-bounded reply wait, accumulates
//! loss and round-trip-time statistics, and drives the repeated
//! send/wait/record probe cycle as a state machine.  Raw-socket transport,
//! name resolution and console output live outside this crate; they hand the
//! engine plain values and carry out the actions it decides on.

pub mod channel;
pub mod checksum;
pub mod errors;
pub mod family;
pub mod packet;
pub mod probe;
pub mod stats;
pub mod wait;
