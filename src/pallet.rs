use vstd::prelude::*;

use crate::deposit::DepositLedger;
use crate::membership::MembershipLedger;
use crate::model::{activation_end, LedgerModel};
use crate::registry::RoomRegistry;
use crate::types::{AccountId, Error, Event, Id, Room, RoomStatus, MS_PER_DAY, ROOM_CAPACITY};

verus! {

/// The room lifecycle controller together with the ledgers it owns. All
/// changes go through `create_new_room` and `join_room`, which validate
/// first and then apply every write of the operation, or none.
pub struct Pallet {
    registry: RoomRegistry,
    membership: MembershipLedger,
    deposits: DepositLedger,
    events: Vec<Event>,
}

impl View for Pallet {
    type V = LedgerModel;

    closed spec fn view(&self) -> LedgerModel {
        LedgerModel {
            last_id: self.registry.last(),
            rooms: self.registry@,
            members: self.membership@,
            deposits: self.deposits@,
            events: self.events@,
        }
    }
}

/// `now + num_days` days in milliseconds, saturated at `u64::MAX`.
pub fn end_of_term(now: u64, num_days: u64) -> (r: u64)
    ensures
        r == activation_end(now, num_days),
{
    match num_days.checked_mul(MS_PER_DAY) {
        Some(term) => now.saturating_add(term),
        None => {
            assert(num_days * MS_PER_DAY > u64::MAX);
            u64::MAX
        },
    }
}

impl Pallet {
    pub open spec fn wf(&self) -> bool {
        self@.wf()
    }

    /// An empty ledger: no rooms, no members, no deposits.
    pub fn new() -> (r: Self)
        ensures
            r@ == LedgerModel::empty(),
            r.wf(),
    {
        let r = Pallet {
            registry: RoomRegistry::new(),
            membership: MembershipLedger::new(),
            deposits: DepositLedger::new(),
            events: Vec::new(),
        };
        assert(r@.events =~= Seq::<Event>::empty());
        r
    }

    /// `who` opens a new room with a term of `num_days` days and a deposit of
    /// `deposit`; `who` becomes its only member and its deposit is recorded
    /// (replacing any earlier one). Returns the id of the room, one above the
    /// highest allocated before.
    pub fn create_new_room(&mut self, who: AccountId, num_days: u64, deposit: u128) -> (id: Id)
        requires
            old(self).wf(),
            old(self)@.last_id < Id::MAX,
        ensures
            id == old(self)@.last_id + 1,
            final(self)@ == old(self)@.create_next(who, num_days, deposit),
            final(self).wf(),
    {
        let id = self.registry.allocate_and_create(who, num_days, deposit);
        self.membership.start(id, who);
        self.deposits.record(who, deposit);
        self.events.push(Event::CreateRoom { id_room: id, creator: who });
        proof {
            let s = old(self)@;
            let t = final(self)@;
            assert(t == s.create_next(who, num_days, deposit));
            assert forall|k: Id| 1 <= k <= t.last_id implies #[trigger] t.room_wf(k) by {
                if k != id {
                    assert(s.room_wf(k));
                    let m = t.members[k];
                    assert forall|i: int| 0 <= i < m.len() implies t.deposits.contains_key(
                        #[trigger] m[i],
                    ) by {
                        assert(s.deposits.contains_key(m[i]));
                    }
                } else {
                    assert(t.members[k][0] == who);
                }
            }
        }
        id
    }

    /// `who` joins room `id_room` with `deposit`, at time `now` in epoch
    /// milliseconds. Rejected, with nothing changed, when the id is above
    /// every allocated one or names no room (`RoomNotExist`), when `who`
    /// already holds a deposit (`UserAlreadyJoined`), or when the room has
    /// started or ended. Otherwise `who` is appended to the members and its
    /// deposit recorded; on the fourth member the room becomes active and
    /// ends `num_days` days after `now`.
    pub fn join_room(&mut self, who: AccountId, id_room: Id, deposit: u128, now: u64) -> (r: Result<
        (),
        Error,
    >)
        requires
            old(self).wf(),
        ensures
            final(self).wf(),
            r is Err ==> final(self)@ == old(self)@,
            match old(self)@.join_check(who, id_room) {
                Some(e) => r == Err::<(), Error>(e),
                None => r is Ok && final(self)@ == old(self)@.join_next(
                    who,
                    id_room,
                    deposit,
                    now,
                ),
            },
    {
        if id_room > self.registry.last_id() {
            return Err(Error::RoomNotExist);
        }
        if self.deposits.has_deposit(who) {
            return Err(Error::UserAlreadyJoined);
        }
        let room = match self.registry.get(id_room) {
            Some(room) => room,
            None => return Err(Error::RoomNotExist),
        };
        match room.status {
            RoomStatus::Created => {},
            RoomStatus::Active => return Err(Error::RoomAlreadyStarted),
            RoomStatus::Ended => return Err(Error::RoomAlreadyEnded),
        }
        let ghost s = self@;
        proof {
            assert(s.room_wf(id_room));
        }
        let len = self.membership.append(id_room, who);
        self.deposits.record(who, deposit);
        if len == ROOM_CAPACITY {
            let end = end_of_term(now, room.num_days);
            self.registry.activate(room, end);
        }
        self.events.push(Event::JoinRoom { id_room, user: who, deposit_amount: deposit });
        proof {
            let t = self@;
            assert(t == s.join_next(who, id_room, deposit, now));
            assert forall|k: Id| 1 <= k <= t.last_id implies #[trigger] t.room_wf(k) by {
                assert(s.room_wf(k));
                let m = t.members[k];
                assert forall|i: int| 0 <= i < m.len() implies t.deposits.contains_key(
                    #[trigger] m[i],
                ) by {
                    if k == id_room && i == m.len() - 1 {
                        assert(m[i] == who);
                    } else {
                        assert(m[i] == s.members[k][i]);
                        assert(s.deposits.contains_key(m[i]));
                    }
                }
            }
        }
        Ok(())
    }

    /// Highest room id allocated so far (0 before the first room).
    pub fn room_id(&self) -> (r: Id)
        ensures
            r == self@.last_id,
    {
        self.registry.last_id()
    }

    /// The room stored under `id`, if any.
    pub fn get_room(&self, id: Id) -> (r: Option<Room>)
        ensures
            r == (if self@.rooms.contains_key(id) { Some(self@.rooms[id]) } else { None }),
    {
        self.registry.get(id)
    }

    /// The members of room `id`, in join order.
    pub fn get_user_in_room(&self, id: Id) -> (r: Option<&Vec<AccountId>>)
        ensures
            match r {
                Some(v) => self@.members.contains_key(id) && v@ == self@.members[id],
                None => !self@.members.contains_key(id),
            },
    {
        self.membership.members_of(id)
    }

    /// The deposit recorded for `who`, if any.
    pub fn get_deposit(&self, who: AccountId) -> (r: Option<u128>)
        ensures
            r == (if self@.deposits.contains_key(who) { Some(self@.deposits[who]) } else { None }),
    {
        self.deposits.get(who)
    }

    /// Notifications emitted so far, oldest first.
    pub fn events(&self) -> (r: &Vec<Event>)
        ensures
            r@ == self@.events,
    {
        &self.events
    }
}

} // verus!
