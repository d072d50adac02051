use std::collections::HashMap;
use vstd::prelude::*;

use crate::types::{AccountId, Id, Room, RoomStatus};

verus! {

broadcast use vstd::std_specs::hash::group_hash_axioms;

/// Owns room identity allocation and the room records.
pub struct RoomRegistry {
    last_id: Id,
    rooms: HashMap<Id, Room>,
}

impl View for RoomRegistry {
    type V = Map<Id, Room>;

    closed spec fn view(&self) -> Map<Id, Room> {
        self.rooms@
    }
}

impl RoomRegistry {
    /// Highest id allocated so far (0 before the first room).
    pub closed spec fn last(&self) -> Id {
        self.last_id
    }

    pub fn new() -> (r: Self)
        ensures
            r.last() == 0,
            r@ == Map::<Id, Room>::empty(),
    {
        RoomRegistry { last_id: 0, rooms: HashMap::new() }
    }

    pub fn last_id(&self) -> (r: Id)
        ensures
            r == self.last(),
    {
        self.last_id
    }

    /// Allocates the next id and stores a new room under it, waiting for
    /// members, with `deposit` as its accrued value.
    pub(crate) fn allocate_and_create(&mut self, creator: AccountId, num_days: u64, deposit: u128) -> (id: Id)
        requires
            old(self).last() < Id::MAX,
        ensures
            id == old(self).last() + 1,
            final(self).last() == id,
            final(self)@ == old(self)@.insert(
                id,
                (Room {
                    creator,
                    id_room: id,
                    num_days,
                    end_date: 0,
                    total_value: deposit,
                    status: RoomStatus::Created,
                }),
            ),
    {
        let id: Id = self.last_id + 1;
        self.last_id = id;
        let room = Room {
            creator,
            id_room: id,
            num_days,
            end_date: 0,
            total_value: deposit,
            status: RoomStatus::Created,
        };
        self.rooms.insert(id, room);
        id
    }

    /// Looks up a room.
    pub fn get(&self, id: Id) -> (r: Option<Room>)
        ensures
            r == (if self@.contains_key(id) { Some(self@[id]) } else { None }),
    {
        match self.rooms.get(&id) {
            Some(room) => Some(*room),
            None => None,
        }
    }

    /// Marks a stored room as active, ending at `end_date`. The caller has
    /// checked that the room is still waiting for members.
    pub(crate) fn activate(&mut self, room: Room, end_date: u64)
        requires
            old(self)@.contains_key(room.id_room),
            old(self)@[room.id_room] == room,
        ensures
            final(self).last() == old(self).last(),
            final(self)@ == old(self)@.insert(
                room.id_room,
                (Room { status: RoomStatus::Active, end_date, ..room }),
            ),
    {
        let updated = Room { status: RoomStatus::Active, end_date, ..room };
        self.rooms.insert(room.id_room, updated);
    }
}

} // verus!
