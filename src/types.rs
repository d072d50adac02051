use vstd::prelude::*;

verus! {

/// Identifier of a room, assigned from 1 upwards.
pub type Id = u32;

/// Identity of a participant, as authenticated by the caller of the ledger.
pub type AccountId = u64;

/// Number of members at which a room activates.
pub const ROOM_CAPACITY: usize = 4;

/// Milliseconds in one day.
pub const MS_PER_DAY: u64 = 86_400_000;

/// Lifecycle state of a room.
#[derive(Clone, Copy, Debug, PartialEq, Eq, Structural)]
pub enum RoomStatus {
    Created,
    Active,
    /// Reserved for an expiry process outside this ledger; no operation here reaches it.
    Ended,
}

/// A deposit room as kept in the room registry.
#[derive(Clone, Copy, Debug, PartialEq, Eq, Structural)]
pub struct Room {
    pub creator: AccountId,
    pub id_room: Id,
    pub num_days: u64,
    /// Time in epoch milliseconds at which an active room ends; 0 while the room waits.
    pub end_date: u64,
    /// Deposit recorded when the room was created.
    pub total_value: u128,
    pub status: RoomStatus,
}

impl Room {
    pub fn is_started(&self) -> (r: bool)
        ensures
            r == (self.status != RoomStatus::Created),
    {
        !matches!(self.status, RoomStatus::Created)
    }

    pub fn is_ended(&self) -> (r: bool)
        ensures
            r == (self.status == RoomStatus::Ended),
    {
        matches!(self.status, RoomStatus::Ended)
    }
}

/// Notifications emitted by successful operations.
#[derive(Clone, Copy, Debug, PartialEq, Eq, Structural)]
pub enum Event {
    CreateRoom { id_room: Id, creator: AccountId },
    JoinRoom { id_room: Id, user: AccountId, deposit_amount: u128 },
}

/// Reasons for which an operation is rejected.
#[derive(Clone, Copy, Debug, PartialEq, Eq, Structural)]
pub enum Error {
    RoomNotExist,
    /// Reserved: the member cap is enforced by activation, never by this error.
    RoomOverload,
    RoomAlreadyStarted,
    /// Reserved: no room reaches the ended state through this ledger.
    RoomAlreadyEnded,
    UserAlreadyJoined,
}

} // verus!
