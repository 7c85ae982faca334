//! Client library for a VSSS (very small size soccer) robot setup: it keeps
//! the latest decoded snapshot of each multicast feed (simulator vision,
//! referee, and secondary SSL vision), offers projections over those
//! snapshots, and encodes outbound robot commands.
//!
//! Every scalar that the wire format carries as a floating-point number is
//! held here as its IEEE-754 bit pattern (`u64` for doubles, `u32` for
//! singles); the transport layer converts at the boundary.
use vstd::prelude::*;

pub mod command;
pub mod fira;
pub mod firasim;
pub mod referee;
pub mod sslvision;
pub mod wire;

verus! {

/// A datagram did not decode under its feed's schema. The datagram is
/// dropped and the snapshot it was meant for stays as it was.
#[derive(Clone, Copy, PartialEq, Eq, Debug)]
pub struct DecodeError;

} // verus!
