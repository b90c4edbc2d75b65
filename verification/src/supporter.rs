//! The per-account records of the contract.

use vstd::prelude::*;

use crate::collections::IdSet;
use crate::types::KickstarterId;

verus! {

/// An account that supports kickstarters.
pub struct Supporter {
    pub total_in_deposits: u128,
    pub locked: u128,
    pub available: u128,
    /// The kickstarters this account currently takes part in.
    pub kickstarters: IdSet,
}

#[verifier::ext_equal]
pub struct SupporterView {
    pub total_in_deposits: u128,
    pub locked: u128,
    pub available: u128,
    pub kickstarters: Seq<u32>,
}

impl View for Supporter {
    type V = SupporterView;

    open spec fn view(&self) -> SupporterView {
        SupporterView {
            total_in_deposits: self.total_in_deposits,
            locked: self.locked,
            available: self.available,
            kickstarters: self.kickstarters@,
        }
    }
}

/// The record of an account that holds nothing.
pub open spec fn empty_supporter() -> SupporterView {
    SupporterView {
        total_in_deposits: 0,
        locked: 0,
        available: 0,
        kickstarters: Seq::empty(),
    }
}

impl SupporterView {
    pub open spec fn spec_is_empty(self) -> bool {
        &&& self.available == 0
        &&& self.total_in_deposits == 0
        &&& self.locked == 0
        &&& self.kickstarters.len() == 0
    }
}

impl Default for Supporter {
    fn default() -> (r: Self)
        ensures
            r@ == empty_supporter(),
            r.wf(),
    {
        Supporter { available: 0, total_in_deposits: 0, locked: 0, kickstarters: IdSet::new() }
    }
}

impl Clone for Supporter {
    fn clone(&self) -> (r: Self)
        ensures
            r@ == self@,
            r.wf() == self.wf(),
    {
        Supporter {
            total_in_deposits: self.total_in_deposits,
            locked: self.locked,
            available: self.available,
            kickstarters: self.kickstarters.clone(),
        }
    }
}

impl Supporter {
    pub open spec fn wf(&self) -> bool {
        self.kickstarters.wf()
    }

    /// A fresh record for `supporter_id`, holding nothing.
    pub fn new(supporter_id: &String) -> (r: Self)
        ensures
            r@ == empty_supporter(),
            r.wf(),
    {
        Supporter::default()
    }

    /// An empty supporter is removed from the contract.
    pub fn is_empty(&self) -> (r: bool)
        ensures
            r == self@.spec_is_empty(),
    {
        self.available == 0 && self.total_in_deposits == 0 && self.locked == 0
            && self.kickstarters.is_empty()
    }

    pub fn is_supporting(&self, kickstarter_id: KickstarterId) -> (r: bool)
        ensures
            r == self@.kickstarters.contains(kickstarter_id),
    {
        self.kickstarters.contains(kickstarter_id)
    }
}

/// A user account that holds only an available balance.
pub struct Account {
    pub available: u128,
}

impl Default for Account {
    fn default() -> (r: Self)
        ensures
            r.available == 0,
    {
        Account { available: 0 }
    }
}

impl Account {
    /// An empty account is removed.
    pub fn is_empty(&self) -> (r: bool)
        ensures
            r == (self.available == 0),
    {
        self.available == 0
    }
}

/// An account that funds a kickstarter.
pub struct Funder {
    pub owner: String,
    pub amount: u128,
}

impl Funder {
    /// A funder owned by the caller, `predecessor_account_id`, with nothing funded.
    pub fn default(predecessor_account_id: String) -> (r: Self)
        ensures
            r.owner@ == predecessor_account_id@,
            r.amount == 0,
    {
        Funder { owner: predecessor_account_id, amount: 0 }
    }
}

} // verus!
