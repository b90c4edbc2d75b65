//! Deposits: supporters send stNEAR to fund a kickstarter, and a kickstarter
//! sends its project tokens to back the rewards.

use vstd::prelude::*;

use crate::collections::seq_insert_value;
use crate::constants::{BASIS_POINTS, NEAR};
use crate::contract::{supporter_wf, KatherineFundraising, KatherineView};
use crate::errors::KatherineError;
use crate::kickstarter::KickstarterView;
use crate::supporter::SupporterView;
use crate::types::{EpochMillis, KickstarterId};
use crate::utils::{parse_u32, spec_parse_u32, spec_proportional_result};

verus! {

impl KatherineView {
    /// The outcome of `supporter` depositing `amount` stNEAR in kickstarter
    /// `id` at time `now`: within the funding period, once the project backs
    /// its rewards, and without exceeding the hard cap.
    pub open spec fn spec_supporter_deposit(
        self,
        supporter: Seq<char>,
        amount: u128,
        id: KickstarterId,
        now: EpochMillis,
    ) -> Result<KatherineView, KatherineError> {
        let k = self.kickstarters[id as int];
        let s = self.supporter_or_new(supporter);
        if !k.spec_is_within_funding_period(now) {
            Err(KatherineError::NotWithinFundingPeriod)
        } else if !k.enough_reward_tokens {
            Err(KatherineError::NotEnoughRewardTokensToSupport)
        } else if k.total_deposited + amount > u128::MAX {
            Err(KatherineError::ArithmeticOverflow)
        } else if k.total_deposited + amount > k.deposits_hard_cap {
            Err(KatherineError::HardCapExceeded)
        } else if k.deposit_of(supporter) + amount > u128::MAX {
            Err(KatherineError::ArithmeticOverflow)
        } else {
            Ok(
                self.set_kickstarter(
                    KickstarterView {
                        total_deposited: (k.total_deposited + amount) as u128,
                        deposits: k.deposits.insert(supporter, (k.deposit_of(supporter) + amount) as u128),
                        deposit_order: seq_insert_value(k.deposit_order, supporter),
                        ..k
                    },
                ).put_supporter(
                    supporter,
                    SupporterView { kickstarters: seq_insert_value(s.kickstarters, id), ..s },
                ),
            )
        }
    }

    /// The reward tokens a kickstarter must hold before supporters may
    /// deposit: the tokens its hard cap would earn at its maximum rate, plus
    /// Katherine's fee on them.
    pub open spec fn spec_min_tokens_to_allow_support(self, id: KickstarterId) -> Result<u128, KatherineError> {
        let k = self.kickstarters[id as int];
        match spec_proportional_result(k.deposits_hard_cap, k.max_tokens_to_release_per_stnear, NEAR) {
            Err(e) => Err(e),
            Ok(max) => match spec_proportional_result(self.katherine_fee_percent as u128, max, BASIS_POINTS) {
                Err(e) => Err(e),
                Ok(fee) => if max + fee > u128::MAX {
                    Err(KatherineError::ArithmeticOverflow)
                } else {
                    Ok((max + fee) as u128)
                },
            },
        }
    }

    /// The outcome of the token contract `caller` depositing `amount` project
    /// tokens for kickstarter `id` at time `now`.
    pub open spec fn spec_kickstarter_deposit(
        self,
        amount: u128,
        id: KickstarterId,
        caller: Seq<char>,
        now: EpochMillis,
    ) -> Result<KatherineView, KatherineError> {
        let k = self.kickstarters[id as int];
        if caller != k.token_contract_address {
            Err(KatherineError::WrongTokenContract)
        } else if now >= k.close_timestamp {
            Err(KatherineError::RewardTokensAfterFundingPeriod)
        } else {
            match self.spec_min_tokens_to_allow_support(id) {
                Err(e) => Err(e),
                Ok(min) => if k.available_reward_tokens + amount > u128::MAX {
                    Err(KatherineError::ArithmeticOverflow)
                } else {
                    Ok(
                        self.set_kickstarter(
                            KickstarterView {
                                available_reward_tokens: (k.available_reward_tokens + amount) as u128,
                                enough_reward_tokens: k.available_reward_tokens + amount >= min,
                                ..k
                            },
                        ),
                    )
                },
            }
        }
    }

    /// The outcome of a transfer of `amount` tokens by `caller` on behalf of
    /// `sender`, with `msg` naming the kickstarter: stNEAR from the staking
    /// pool is a supporter's deposit, any other token the project's rewards.
    pub open spec fn spec_ft_on_transfer(
        self,
        sender: Seq<char>,
        amount: u128,
        msg: Seq<char>,
        caller: Seq<char>,
        now: EpochMillis,
    ) -> Result<KatherineView, KatherineError> {
        match spec_parse_u32(msg) {
            None => Err(KatherineError::InvalidKickstarterId),
            Some(id) => match self.kickstarter(id) {
                Err(e) => Err(e),
                Ok(k) => if caller == self.metapool_contract_address {
                    if amount < self.min_deposit_amount {
                        Err(KatherineError::MinimumDepositAmount { minimum: self.min_deposit_amount })
                    } else {
                        self.spec_supporter_deposit(sender, amount, id, now)
                    }
                } else {
                    self.spec_kickstarter_deposit(amount, id, caller, now)
                },
            },
        }
    }
}

impl KatherineFundraising {
    /// Receives `amount` tokens sent by `sender_id` through the token contract
    /// `predecessor_account_id`; `msg` holds the kickstarter id in decimal.
    /// Returns the unused amount, always 0.
    pub fn ft_on_transfer(
        &mut self,
        sender_id: String,
        amount: u128,
        msg: &str,
        predecessor_account_id: &String,
        now: EpochMillis,
    ) -> (r: Result<u128, KatherineError>)
        requires
            old(self).wf(),
        ensures
            final(self).wf(),
            match old(self)@.spec_ft_on_transfer(sender_id@, amount, msg@, predecessor_account_id@, now) {
                Ok(v) => r == Ok::<u128, KatherineError>(0) && final(self)@ == v,
                Err(e) => r == Err::<u128, KatherineError>(e) && *final(self) == *old(self),
            },
    {
        let kickstarter_id = match parse_u32(msg) {
            Some(id) => id,
            None => return Err(KatherineError::InvalidKickstarterId),
        };
        let _ = self.internal_get_kickstarter(kickstarter_id)?;
        if *predecessor_account_id == self.metapool_contract_address {
            self.assert_min_deposit_amount(amount)?;
            self.process_supporter_deposit(&sender_id, amount, kickstarter_id, now)?;
        } else {
            self.process_kickstarter_deposit(amount, kickstarter_id, predecessor_account_id, now)?;
        }
        Ok(0)
    }

    pub fn assert_min_deposit_amount(&self, amount: u128) -> (r: Result<(), KatherineError>)
        ensures
            r is Ok <==> amount >= self.min_deposit_amount,
            r matches Err(e) ==> e == (KatherineError::MinimumDepositAmount { minimum: self.min_deposit_amount }),
    {
        if amount >= self.min_deposit_amount {
            Ok(())
        } else {
            Err(KatherineError::MinimumDepositAmount { minimum: self.min_deposit_amount })
        }
    }

    /// Records a supporter's stNEAR deposit in kickstarter `kickstarter_id`.
    pub fn process_supporter_deposit(
        &mut self,
        supporter_id: &String,
        amount: u128,
        kickstarter_id: KickstarterId,
        now: EpochMillis,
    ) -> (r: Result<(), KatherineError>)
        requires
            old(self).wf(),
            kickstarter_id < old(self).kickstarters@.len(),
        ensures
            final(self).wf(),
            match old(self)@.spec_supporter_deposit(supporter_id@, amount, kickstarter_id, now) {
                Ok(v) => r is Ok && final(self)@ == v,
                Err(e) => r == Err::<(), KatherineError>(e) && *final(self) == *old(self),
            },
    {
        let i = kickstarter_id as usize;
        let k = &self.kickstarters[i];
        k.assert_within_funding_period(now)?;
        k.assert_enough_reward_tokens()?;
        if k.total_deposited > u128::MAX - amount {
            return Err(KatherineError::ArithmeticOverflow);
        }
        let new_total_deposited = k.total_deposited + amount;
        if new_total_deposited > k.deposits_hard_cap {
            return Err(KatherineError::HardCapExceeded);
        }
        let current = match k.deposits.get(supporter_id) {
            Some(d) => *d,
            None => 0,
        };
        if current > u128::MAX - amount {
            return Err(KatherineError::ArithmeticOverflow);
        }
        let mut supporter = self.internal_get_supporter(supporter_id);
        let ghost old_view = self@;
        let km = &mut self.kickstarters[i];
        km.total_deposited = new_total_deposited;
        let res = km.update_supporter_deposits(supporter_id, amount);
        assert(res is Ok);
        let ghost mid_view = self@;
        proof {
            assert(mid_view =~= old_view.set_kickstarter(self.kickstarters@[i as int]@));
        }
        supporter.kickstarters.insert(kickstarter_id);
        proof {
            assert(supporter_wf(supporter, self.kickstarters@.len() as int));
        }
        let ghost s1 = supporter;
        self.supporters.insert(supporter_id.clone(), supporter);
        proof {
            assert(self@ =~= mid_view.put_supporter(supporter_id@, s1@));
            assert forall|s: Seq<char>| #[trigger] self.supporters@.contains_key(s) implies supporter_wf(
                self.supporters@[s],
                self.kickstarters@.len() as int,
            ) by {
                if s != supporter_id@ {
                    assert(old(self).supporters@.contains_key(s));
                }
            }
        }
        Ok(())
    }

    /// Records project tokens deposited by the kickstarter's token contract
    /// before the funding period ends, and whether they now back the largest
    /// possible rewards.
    pub fn process_kickstarter_deposit(
        &mut self,
        amount: u128,
        kickstarter_id: KickstarterId,
        predecessor_account_id: &String,
        now: EpochMillis,
    ) -> (r: Result<(), KatherineError>)
        requires
            old(self).wf(),
            kickstarter_id < old(self).kickstarters@.len(),
        ensures
            final(self).wf(),
            match old(self)@.spec_kickstarter_deposit(amount, kickstarter_id, predecessor_account_id@, now) {
                Ok(v) => r is Ok && final(self)@ == v,
                Err(e) => r == Err::<(), KatherineError>(e) && *final(self) == *old(self),
            },
    {
        let i = kickstarter_id as usize;
        let k = &self.kickstarters[i];
        if *predecessor_account_id != k.token_contract_address {
            return Err(KatherineError::WrongTokenContract);
        }
        if now >= k.close_timestamp {
            return Err(KatherineError::RewardTokensAfterFundingPeriod);
        }
        let max_tokens_to_release = self.calculate_max_tokens_to_release(k)?;
        let fee = self.calculate_katherine_fee(max_tokens_to_release)?;
        if max_tokens_to_release > u128::MAX - fee {
            return Err(KatherineError::ArithmeticOverflow);
        }
        let min_tokens_to_allow_support = max_tokens_to_release + fee;
        if k.available_reward_tokens > u128::MAX - amount {
            return Err(KatherineError::ArithmeticOverflow);
        }
        let ghost old_view = self@;
        let km = &mut self.kickstarters[i];
        km.available_reward_tokens = km.available_reward_tokens + amount;
        km.enough_reward_tokens = km.available_reward_tokens >= min_tokens_to_allow_support;
        proof {
            assert(self@ =~= old_view.set_kickstarter(self.kickstarters@[i as int]@));
        }
        Ok(())
    }
}

} // verus!
