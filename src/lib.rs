//! Group deposit rooms: a ledger-backed state machine in which participants
//! pool a one-time deposit and a room activates once four members have joined.

pub mod types;
pub mod model;
pub mod registry;
pub mod membership;
pub mod deposit;
pub mod pallet;
pub mod laws;
