use std::collections::HashMap;
use vstd::prelude::*;

use crate::types::{AccountId, Id};

verus! {

broadcast use vstd::std_specs::hash::group_hash_axioms;

/// Owns, per room, the members in the order in which they joined.
pub struct MembershipLedger {
    members: HashMap<Id, Vec<AccountId>>,
}

impl View for MembershipLedger {
    type V = Map<Id, Seq<AccountId>>;

    closed spec fn view(&self) -> Map<Id, Seq<AccountId>> {
        self.members@.map_values(|v: Vec<AccountId>| v@)
    }
}

impl MembershipLedger {
    pub fn new() -> (r: Self)
        ensures
            r@ == Map::<Id, Seq<AccountId>>::empty(),
    {
        let r = MembershipLedger { members: HashMap::new() };
        assert(r@ =~= Map::<Id, Seq<AccountId>>::empty());
        r
    }

    /// The members of room `id`, in join order.
    pub fn members_of(&self, id: Id) -> (r: Option<&Vec<AccountId>>)
        ensures
            match r {
                Some(v) => self@.contains_key(id) && v@ == self@[id],
                None => !self@.contains_key(id),
            },
    {
        self.members.get(&id)
    }

    /// Starts the membership of room `id` with its creator alone.
    pub(crate) fn start(&mut self, id: Id, creator: AccountId)
        ensures
            final(self)@ == old(self)@.insert(id, seq![creator]),
    {
        let mut v: Vec<AccountId> = Vec::new();
        v.push(creator);
        self.members.insert(id, v);
        assert(final(self)@ =~= old(self)@.insert(id, seq![creator]));
    }

    /// Appends `who` to the members of room `id` and returns their new
    /// number. The caller has validated the join.
    pub(crate) fn append(&mut self, id: Id, who: AccountId) -> (len: usize)
        ensures
            final(self)@ == old(self)@.insert(
                id,
                (if old(self)@.contains_key(id) { old(self)@[id] } else { Seq::empty() }).push(who),
            ),
            len == final(self)@[id].len(),
    {
        let mut v: Vec<AccountId> = match self.members.remove(&id) {
            Some(v) => v,
            None => Vec::new(),
        };
        v.push(who);
        let len = v.len();
        self.members.insert(id, v);
        assert(final(self)@ =~= old(self)@.insert(
            id,
            (if old(self)@.contains_key(id) { old(self)@[id] } else { Seq::empty() }).push(who),
        ));
        len
    }
}

} // verus!
