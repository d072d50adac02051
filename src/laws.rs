use vstd::prelude::*;

use crate::model::LedgerModel;
use crate::types::{AccountId, Error, Id, RoomStatus, ROOM_CAPACITY};

verus! {

/// The ledger after the room creations `calls` (creator, term, deposit), in order.
pub open spec fn create_all(s: LedgerModel, calls: Seq<(AccountId, u64, u128)>) -> LedgerModel
    decreases calls.len(),
{
    if calls.len() == 0 {
        s
    } else {
        create_all(s.create_next(calls[0].0, calls[0].1, calls[0].2), calls.drop_first())
    }
}

/// The ids returned by the room creations `calls`, in order, starting from `s`.
pub open spec fn assigned_ids(s: LedgerModel, calls: Seq<(AccountId, u64, u128)>) -> Seq<int>
    decreases calls.len(),
{
    if calls.len() == 0 {
        Seq::empty()
    } else {
        seq![s.last_id + 1] + assigned_ids(
            s.create_next(calls[0].0, calls[0].1, calls[0].2),
            calls.drop_first(),
        )
    }
}

/// Successive room creations are given the ids that follow the last one
/// allocated, one after the other, with no gap and no id used twice.
pub proof fn lemma_create_ids_consecutive(s: LedgerModel, calls: Seq<(AccountId, u64, u128)>)
    requires
        s.last_id + calls.len() <= Id::MAX,
    ensures
        assigned_ids(s, calls).len() == calls.len(),
        forall|i: int| 0 <= i < calls.len() ==> #[trigger] assigned_ids(s, calls)[i] == s.last_id + 1 + i,
        create_all(s, calls).last_id == s.last_id + calls.len(),
    decreases calls.len(),
{
    if calls.len() > 0 {
        let t = s.create_next(calls[0].0, calls[0].1, calls[0].2);
        lemma_create_ids_consecutive(t, calls.drop_first());
        let rest = assigned_ids(t, calls.drop_first());
        assert forall|i: int| 0 <= i < calls.len() implies #[trigger] assigned_ids(s, calls)[i]
            == s.last_id + 1 + i by {
            if i > 0 {
                assert(assigned_ids(s, calls)[i] == rest[i - 1]);
            }
        }
    }
}

/// On a fresh ledger, room creations are given the ids 1, 2, 3, ... in order:
/// strictly increasing, with no gap and no reuse.
pub proof fn lemma_create_ids_from_one(calls: Seq<(AccountId, u64, u128)>)
    requires
        calls.len() <= Id::MAX,
    ensures
        assigned_ids(LedgerModel::empty(), calls).len() == calls.len(),
        forall|i: int| 0 <= i < calls.len() ==> #[trigger] assigned_ids(LedgerModel::empty(), calls)[i] == i + 1,
        forall|i: int, j: int|
            0 <= i < j < calls.len() ==> #[trigger] assigned_ids(LedgerModel::empty(), calls)[i]
                < #[trigger] assigned_ids(LedgerModel::empty(), calls)[j],
{
    lemma_create_ids_consecutive(LedgerModel::empty(), calls);
}

/// A participant that holds a deposit cannot join any allocated room id.
pub proof fn lemma_depositor_cannot_join(s: LedgerModel, who: AccountId, id: Id)
    requires
        s.deposits.contains_key(who),
        id <= s.last_id,
    ensures
        s.join_check(who, id) == Some(Error::UserAlreadyJoined),
{
}

/// Joining an id above the last allocated one fails with `RoomNotExist`.
pub proof fn lemma_join_beyond_last_id(s: LedgerModel, who: AccountId, id: Id)
    requires
        id > s.last_id,
    ensures
        s.join_check(who, id) == Some(Error::RoomNotExist),
{
}

/// A participant without a deposit cannot join an active room: the join
/// fails with `RoomAlreadyStarted`.
pub proof fn lemma_join_active_room(s: LedgerModel, who: AccountId, id: Id)
    requires
        s.wf(),
        s.rooms.contains_key(id),
        s.rooms[id].status == RoomStatus::Active,
        !s.deposits.contains_key(who),
    ensures
        s.join_check(who, id) == Some(Error::RoomAlreadyStarted),
{
}

/// In a well-formed ledger, which every operation keeps, no join fails with
/// `RoomAlreadyEnded`: no room is ever ended.
pub proof fn lemma_no_join_sees_ended_room(s: LedgerModel, who: AccountId, id: Id)
    requires
        s.wf(),
    ensures
        s.join_check(who, id) != Some(Error::RoomAlreadyEnded),
{
    if s.rooms.contains_key(id) {
        assert(s.room_wf(id));
    }
}

/// After the join that brings a room to four members, the room is active;
/// a further join to it fails with `RoomAlreadyStarted` for a participant
/// without a deposit, and with `UserAlreadyJoined` for the one that just joined.
pub proof fn lemma_join_after_activation(
    s: LedgerModel,
    who: AccountId,
    id: Id,
    deposit: u128,
    now: u64,
    other: AccountId,
)
    requires
        s.wf(),
        s.join_check(who, id) is None,
        s.members[id].len() == ROOM_CAPACITY - 1,
        other != who,
        !s.deposits.contains_key(other),
    ensures
        s.join_next(who, id, deposit, now).rooms[id].status == RoomStatus::Active,
        s.join_next(who, id, deposit, now).join_check(other, id) == Some(Error::RoomAlreadyStarted),
        s.join_next(who, id, deposit, now).join_check(who, id) == Some(Error::UserAlreadyJoined),
{
}

} // verus!
