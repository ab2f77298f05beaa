//! What every drone driver shares.
use vstd::prelude::*;

verus! {

/// Distances are in centimetres, for now, whatever the drone's precision.
pub type Unit = u64;

pub type IUnit = i64;

/// The state of a drone connection, roughly in the order they occur.
#[derive(Debug, Clone, Copy, PartialEq, Eq)]
pub enum ConnectionState {
    Connected,
    StillConnecting,
    FailedConnect,
    Disconnected,
}

} // verus!
