//! Direct bookkeeping of supporter balances and deposits: the available
//! balance of a supporter record, and deposits and their restoration recorded
//! without the checks of the deposit and withdrawal flows.

use vstd::prelude::*;

use crate::collections::seq_insert_value;
use crate::constants::ONE_MILLI_NEAR;
use crate::contract::{supporter_wf, KatherineFundraising, KatherineView};
use crate::errors::KatherineError;
use crate::kickstarter::{Kickstarter, KickstarterView};
use crate::supporter::{Supporter, SupporterView};
use crate::types::{BalanceJSON, EpochMillis, KickstarterId, KickstarterIdJSON};
use crate::utils::{ends_with, is_close, spec_ends_with, spec_is_close};

verus! {

/// The amount taken from an available balance of `available` (and from the
/// contract's total of `total_available`) when `caller` asks for
/// `requested`: all of it when `requested` is within one milli-NEAR of it,
/// except for lockup accounts, which get exactly what they ask for.
pub open spec fn spec_take_from_available(available: u128, total_available: u128, requested: u128, caller: Seq<char>) -> Result<
    u128,
    KatherineError,
> {
    let lockup = spec_ends_with(caller, ".lockup.near"@);
    if !lockup && available + ONE_MILLI_NEAR > u128::MAX {
        Err(KatherineError::ArithmeticOverflow)
    } else {
        let to_withdraw = if !lockup && spec_is_close(requested, available) { available } else { requested };
        if available < to_withdraw {
            Err(KatherineError::NotEnoughAvailableBalance)
        } else if total_available < to_withdraw {
            Err(KatherineError::TotalAvailableInconsistency)
        } else {
            Ok(to_withdraw)
        }
    }
}

impl Supporter {
    /// Takes up to `amount_requested` from the supporter's available balance
    /// and from the contract's total available, for `predecessor_account_id`;
    /// returns the amount taken.
    pub fn take_from_available(
        &mut self,
        amount_requested: u128,
        main: &mut KatherineFundraising,
        predecessor_account_id: &String,
    ) -> (r: Result<u128, KatherineError>)
        requires
            old(self).wf(),
            old(main).wf(),
        ensures
            final(self).wf(),
            final(main).wf(),
            match spec_take_from_available(
                old(self).available,
                old(main).total_available,
                amount_requested,
                predecessor_account_id@,
            ) {
                Ok(taken) => {
                    &&& r == Ok::<u128, KatherineError>(taken)
                    &&& final(self)@ == (SupporterView { available: (old(self).available - taken) as u128, ..old(self)@ })
                    &&& final(main)@ == (KatherineView {
                        total_available: (old(main).total_available - taken) as u128,
                        ..old(main)@
                    })
                },
                Err(e) => r == Err::<u128, KatherineError>(e) && *final(self) == *old(self) && *final(main) == *old(main),
            },
    {
        let lockup = ends_with(predecessor_account_id.as_str(), ".lockup.near");
        if !lockup && self.available > u128::MAX - ONE_MILLI_NEAR {
            return Err(KatherineError::ArithmeticOverflow);
        }
        let to_withdraw: u128 = if !lockup && is_close(amount_requested, self.available) {
            self.available
        } else {
            amount_requested
        };
        if self.available < to_withdraw {
            return Err(KatherineError::NotEnoughAvailableBalance);
        }
        if main.total_available < to_withdraw {
            return Err(KatherineError::TotalAvailableInconsistency);
        }
        self.available = self.available - to_withdraw;
        main.total_available = main.total_available - to_withdraw;
        Ok(to_withdraw)
    }
}

impl KatherineView {
    /// Adds `amount` back to `supporter`'s deposit in kickstarter `id` (a
    /// missing deposit counts as 0).
    pub open spec fn spec_restore_withdraw(self, amount: u128, id: KickstarterId, supporter: Seq<char>) -> Result<
        KatherineView,
        KatherineError,
    > {
        match self.kickstarter(id) {
            Err(e) => Err(e),
            Ok(k) => if k.deposit_of(supporter) + amount > u128::MAX {
                Err(KatherineError::ArithmeticOverflow)
            } else {
                Ok(
                    self.set_kickstarter(
                        KickstarterView {
                            deposits: k.deposits.insert(supporter, (k.deposit_of(supporter) + amount) as u128),
                            deposit_order: seq_insert_value(k.deposit_order, supporter),
                            ..k
                        },
                    ),
                )
            },
        }
    }

    /// Records a deposit of `amount` stNEAR by `supporter` in kickstarter
    /// `id` at time `now`, within the funding period: in the supporter's
    /// total, in the kickstarter's total and in the supporter's deposit.
    pub open spec fn spec_internal_supporter_deposit(self, supporter: Seq<char>, amount: u128, id: KickstarterId, now: EpochMillis) -> Result<
        KatherineView,
        KatherineError,
    > {
        let k = self.kickstarters[id as int];
        let s = self.supporter_or_new(supporter);
        if now >= k.close_timestamp || now < k.open_timestamp {
            Err(KatherineError::NotWithinFundingPeriod)
        } else if s.total_in_deposits + amount > u128::MAX || k.total_deposited + amount > u128::MAX
            || k.deposit_of(supporter) + amount > u128::MAX {
            Err(KatherineError::ArithmeticOverflow)
        } else {
            Ok(
                self.put_supporter(
                    supporter,
                    SupporterView { total_in_deposits: (s.total_in_deposits + amount) as u128, ..s },
                ).set_kickstarter(
                    KickstarterView {
                        total_deposited: (k.total_deposited + amount) as u128,
                        deposits: k.deposits.insert(supporter, (k.deposit_of(supporter) + amount) as u128),
                        deposit_order: seq_insert_value(k.deposit_order, supporter),
                        ..k
                    },
                ),
            )
        }
    }

    /// Records a deposit of `amount` project tokens by `caller` for
    /// kickstarter `id` at time `now`: the token must be the kickstarter's
    /// and the funding period must not have started.
    pub open spec fn spec_internal_kickstarter_deposit(self, amount: u128, id: KickstarterId, caller: Seq<char>, now: EpochMillis) -> Result<
        KatherineView,
        KatherineError,
    > {
        let k = self.kickstarters[id as int];
        if caller != k.token_contract_address {
            Err(KatherineError::WrongTokenContract)
        } else if now > k.open_timestamp {
            Err(KatherineError::RewardTokensAfterFundingPeriod)
        } else if k.available_reward_tokens + amount > u128::MAX {
            Err(KatherineError::ArithmeticOverflow)
        } else {
            Ok(
                self.set_kickstarter(
                    KickstarterView { available_reward_tokens: (k.available_reward_tokens + amount) as u128, ..k },
                ),
            )
        }
    }
}

impl KatherineFundraising {
    /// Stores the supporter's record, or removes it when it holds nothing.
    pub fn internal_update_supporter(&mut self, supporter_id: &String, supporter: &Supporter)
        requires
            old(self).wf(),
            supporter_wf(*supporter, old(self).kickstarters@.len() as int),
        ensures
            final(self).wf(),
            final(self)@ == if supporter@.spec_is_empty() {
                KatherineView { supporters: old(self)@.supporters.remove(supporter_id@), ..old(self)@ }
            } else {
                old(self)@.put_supporter(supporter_id@, supporter@)
            },
    {
        if supporter.is_empty() {
            self.supporters.remove(supporter_id);
            proof {
                assert(self@ =~= KatherineView { supporters: old(self)@.supporters.remove(supporter_id@), ..old(self)@ });
            }
        } else {
            let copy = supporter.clone();
            self.supporters.insert(supporter_id.clone(), copy);
            proof {
                self.lemma_wf_put_supporter(old(self), supporter_id@);
                assert(self@ =~= old(self)@.put_supporter(supporter_id@, supporter@));
            }
        }
    }

    /// The supporter's deposit in the kickstarter is exactly `total_deposited`.
    pub fn internal_verify_total_deposited(
        &self,
        kickstarter: &Kickstarter,
        supporter_id: &String,
        total_deposited: u128,
    ) -> (r: bool)
        requires
            kickstarter.wf(),
        ensures
            r == (kickstarter@.deposits.contains_key(supporter_id@) && kickstarter@.deposits[supporter_id@]
                == total_deposited),
    {
        match kickstarter.deposits.get(supporter_id) {
            Some(amount) => *amount == total_deposited,
            None => false,
        }
    }

    /// Adds `amount` back to the supporter's deposit after a failed transfer.
    pub fn internal_restore_withdraw(&mut self, amount: u128, kickstarter_id: KickstarterId, supporter_id: String) -> (r:
        Result<(), KatherineError>)
        requires
            old(self).wf(),
        ensures
            final(self).wf(),
            match old(self)@.spec_restore_withdraw(amount, kickstarter_id, supporter_id@) {
                Ok(v) => r is Ok && final(self)@ == v,
                Err(e) => r == Err::<(), KatherineError>(e) && *final(self) == *old(self),
            },
    {
        let k = self.internal_get_kickstarter(kickstarter_id)?;
        let deposit = match k.deposits.get(&supporter_id) {
            Some(d) => *d,
            None => 0,
        };
        if deposit > u128::MAX - amount {
            return Err(KatherineError::ArithmeticOverflow);
        }
        let i = kickstarter_id as usize;
        let ghost old_view = self@;
        self.kickstarters[i].deposits.insert(supporter_id, deposit + amount);
        proof {
            assert(self@ =~= old_view.set_kickstarter(self.kickstarters@[i as int]@));
        }
        Ok(())
    }

    /// Settles a transfer of stNEAR to `user`; on failure the amount goes
    /// back to the user's deposit.
    pub fn return_tokens_callback(
        &mut self,
        user: String,
        kickstarter_id: KickstarterIdJSON,
        amount: BalanceJSON,
        transfer_succeeded: bool,
    ) -> (r: Result<(), KatherineError>)
        requires
            old(self).wf(),
        ensures
            final(self).wf(),
            transfer_succeeded ==> r is Ok && *final(self) == *old(self),
            !transfer_succeeded ==> match old(self)@.spec_restore_withdraw(amount, kickstarter_id, user@) {
                Ok(v) => r is Ok && final(self)@ == v,
                Err(e) => r == Err::<(), KatherineError>(e) && *final(self) == *old(self),
            },
    {
        if transfer_succeeded {
            Ok(())
        } else {
            self.internal_restore_withdraw(amount, kickstarter_id, user)
        }
    }

    /// Records a deposit of `amount` stNEAR by the supporter within the
    /// funding period; returns the unused amount (always 0).
    pub fn internal_supporter_deposit(
        &mut self,
        supporter_id: &String,
        amount: u128,
        kickstarter_id: KickstarterId,
        now: EpochMillis,
    ) -> (r: Result<u128, KatherineError>)
        requires
            old(self).wf(),
            kickstarter_id < old(self).kickstarters@.len(),
        ensures
            final(self).wf(),
            match old(self)@.spec_internal_supporter_deposit(supporter_id@, amount, kickstarter_id, now) {
                Ok(v) => r == Ok::<u128, KatherineError>(0) && final(self)@ == v,
                Err(e) => r == Err::<u128, KatherineError>(e) && *final(self) == *old(self),
            },
    {
        let i = kickstarter_id as usize;
        let k = &self.kickstarters[i];
        if now >= k.close_timestamp || now < k.open_timestamp {
            return Err(KatherineError::NotWithinFundingPeriod);
        }
        let mut supporter = self.internal_get_supporter(supporter_id);
        if supporter.total_in_deposits > u128::MAX - amount || k.total_deposited > u128::MAX - amount {
            return Err(KatherineError::ArithmeticOverflow);
        }
        let deposit = match k.deposits.get(supporter_id) {
            Some(d) => *d,
            None => 0,
        };
        if deposit > u128::MAX - amount {
            return Err(KatherineError::ArithmeticOverflow);
        }
        supporter.total_in_deposits = supporter.total_in_deposits + amount;
        self.supporters.insert(supporter_id.clone(), supporter);
        proof {
            self.lemma_wf_put_supporter(old(self), supporter_id@);
        }
        let ghost mid = self@;
        proof {
            assert(mid =~= old(self)@.put_supporter(
                supporter_id@,
                SupporterView {
                    total_in_deposits: (old(self)@.supporter_or_new(supporter_id@).total_in_deposits + amount) as u128,
                    ..old(self)@.supporter_or_new(supporter_id@)
                },
            ));
        }
        self.kickstarters[i].total_deposited = self.kickstarters[i].total_deposited + amount;
        self.kickstarters[i].deposits.insert(supporter_id.clone(), deposit + amount);
        proof {
            assert(self@ =~= mid.set_kickstarter(self.kickstarters@[i as int]@));
        }
        Ok(0)
    }

    /// Records a deposit of `amount` project tokens by the kickstarter's
    /// token contract before its funding period; returns the unused amount
    /// (always 0).
    pub fn internal_kickstarter_deposit(
        &mut self,
        amount: u128,
        kickstarter_id: KickstarterId,
        predecessor_account_id: &String,
        now: EpochMillis,
    ) -> (r: Result<u128, KatherineError>)
        requires
            old(self).wf(),
            kickstarter_id < old(self).kickstarters@.len(),
        ensures
            final(self).wf(),
            match old(self)@.spec_internal_kickstarter_deposit(amount, kickstarter_id, predecessor_account_id@, now) {
                Ok(v) => r == Ok::<u128, KatherineError>(0) && final(self)@ == v,
                Err(e) => r == Err::<u128, KatherineError>(e) && *final(self) == *old(self),
            },
    {
        let i = kickstarter_id as usize;
        if *predecessor_account_id != self.kickstarters[i].token_contract_address {
            return Err(KatherineError::WrongTokenContract);
        }
        if now > self.kickstarters[i].open_timestamp {
            return Err(KatherineError::RewardTokensAfterFundingPeriod);
        }
        if self.kickstarters[i].available_reward_tokens > u128::MAX - amount {
            return Err(KatherineError::ArithmeticOverflow);
        }
        let ghost old_view = self@;
        self.kickstarters[i].available_reward_tokens = self.kickstarters[i].available_reward_tokens + amount;
        proof {
            assert(self@ =~= old_view.set_kickstarter(self.kickstarters@[i as int]@));
        }
        Ok(0)
    }
}

} // verus!
