use std::collections::HashMap;
use vstd::prelude::*;

use crate::types::AccountId;

verus! {

broadcast use vstd::std_specs::hash::group_hash_axioms;

/// Owns, for every participant, the deposit recorded when it joined a room.
/// Holding a record is what keeps a participant to one room at a time.
pub struct DepositLedger {
    deposits: HashMap<AccountId, u128>,
}

impl View for DepositLedger {
    type V = Map<AccountId, u128>;

    closed spec fn view(&self) -> Map<AccountId, u128> {
        self.deposits@
    }
}

impl DepositLedger {
    pub fn new() -> (r: Self)
        ensures
            r@ == Map::<AccountId, u128>::empty(),
    {
        DepositLedger { deposits: HashMap::new() }
    }

    pub fn has_deposit(&self, who: AccountId) -> (r: bool)
        ensures
            r == self@.contains_key(who),
    {
        self.deposits.contains_key(&who)
    }

    /// The deposit recorded for `who`, if any.
    pub fn get(&self, who: AccountId) -> (r: Option<u128>)
        ensures
            r == (if self@.contains_key(who) { Some(self@[who]) } else { None }),
    {
        match self.deposits.get(&who) {
            Some(amount) => Some(*amount),
            None => None,
        }
    }

    /// Sets the deposit of `who`, replacing any earlier one.
    pub(crate) fn record(&mut self, who: AccountId, amount: u128)
        ensures
            final(self)@ == old(self)@.insert(who, amount),
    {
        self.deposits.insert(who, amount);
    }
}

} // verus!
