use vstd::prelude::*;

use crate::types::{AccountId, Error, Event, Id, Room, RoomStatus, MS_PER_DAY, ROOM_CAPACITY};

verus! {

/// The whole ledger as a mathematical value: the registry, the membership
/// ledger, the deposit ledger and the notifications emitted so far.
pub ghost struct LedgerModel {
    /// Highest room id ever allocated (0 before the first room).
    pub last_id: Id,
    pub rooms: Map<Id, Room>,
    pub members: Map<Id, Seq<AccountId>>,
    pub deposits: Map<AccountId, u128>,
    pub events: Seq<Event>,
}

/// End of the term of a room activated at `now`: `now + num_days` days in
/// milliseconds, saturated at `u64::MAX`.
pub open spec fn activation_end(now: u64, num_days: u64) -> u64 {
    let t = now + num_days * MS_PER_DAY;
    if t > u64::MAX {
        u64::MAX
    } else {
        t as u64
    }
}

impl LedgerModel {
    /// The ledger before any operation.
    pub open spec fn empty() -> LedgerModel {
        LedgerModel {
            last_id: 0,
            rooms: Map::empty(),
            members: Map::empty(),
            deposits: Map::empty(),
            events: Seq::empty(),
        }
    }

    /// What must hold of one allocated room.
    pub open spec fn room_wf(self, id: Id) -> bool {
        let room = self.rooms[id];
        let m = self.members[id];
        &&& room.id_room == id
        &&& 1 <= m.len() <= ROOM_CAPACITY
        &&& m[0] == room.creator
        &&& room.status != RoomStatus::Ended
        &&& room.status == RoomStatus::Created ==> m.len() < ROOM_CAPACITY && room.end_date == 0
        &&& room.status == RoomStatus::Active ==> m.len() == ROOM_CAPACITY
        &&& forall|i: int| 0 <= i < m.len() ==> self.deposits.contains_key(#[trigger] m[i])
    }

    /// Rooms and membership records exist for exactly the ids `1..=last_id`,
    /// and each allocated room is well formed.
    pub open spec fn wf(self) -> bool {
        &&& forall|id: Id| #[trigger] self.rooms.contains_key(id) <==> 1 <= id <= self.last_id
        &&& forall|id: Id| #[trigger] self.members.contains_key(id) <==> 1 <= id <= self.last_id
        &&& forall|id: Id| 1 <= id <= self.last_id ==> #[trigger] self.room_wf(id)
    }

    /// The ledger after `who` creates a room with term `num_days` and deposit `deposit`.
    pub open spec fn create_next(self, who: AccountId, num_days: u64, deposit: u128) -> LedgerModel {
        let id = (self.last_id + 1) as Id;
        let room = Room {
            creator: who,
            id_room: id,
            num_days,
            end_date: 0,
            total_value: deposit,
            status: RoomStatus::Created,
        };
        LedgerModel {
            last_id: id,
            rooms: self.rooms.insert(id, room),
            members: self.members.insert(id, seq![who]),
            deposits: self.deposits.insert(who, deposit),
            events: self.events.push(Event::CreateRoom { id_room: id, creator: who }),
        }
    }

    /// The first check that rejects `who` joining room `id`, in the order
    /// the checks are made; `None` when the join is accepted.
    pub open spec fn join_check(self, who: AccountId, id: Id) -> Option<Error> {
        if id > self.last_id {
            Some(Error::RoomNotExist)
        } else if self.deposits.contains_key(who) {
            Some(Error::UserAlreadyJoined)
        } else if !self.rooms.contains_key(id) {
            Some(Error::RoomNotExist)
        } else if self.rooms[id].status == RoomStatus::Active {
            Some(Error::RoomAlreadyStarted)
        } else if self.rooms[id].status == RoomStatus::Ended {
            Some(Error::RoomAlreadyEnded)
        } else {
            None
        }
    }

    /// The ledger after an accepted join of `who` to room `id` with
    /// `deposit`, at time `now`: `who` is appended to the members and its
    /// deposit recorded; the room activates when it reaches four members.
    pub open spec fn join_next(self, who: AccountId, id: Id, deposit: u128, now: u64) -> LedgerModel {
        let m = self.members[id].push(who);
        let room = self.rooms[id];
        LedgerModel {
            last_id: self.last_id,
            rooms: if m.len() == ROOM_CAPACITY {
                self.rooms.insert(
                    id,
                    Room {
                        status: RoomStatus::Active,
                        end_date: activation_end(now, room.num_days),
                        ..room
                    },
                )
            } else {
                self.rooms
            },
            members: self.members.insert(id, m),
            deposits: self.deposits.insert(who, deposit),
            events: self.events.push(
                Event::JoinRoom { id_room: id, user: who, deposit_amount: deposit },
            ),
        }
    }
}

} // verus!
