//! Claims of project tokens: supporters' rewards, the project's excess
//! tokens, and Katherine's fee.

use vstd::prelude::*;

use crate::actions::{Callback, CallbackView, PromiseAction, PromiseActionView};
use crate::constants::{WithdrawEntity, ONE_MILLI_NEAR};
use crate::contract::{KatherineFundraising, KatherineView};
use crate::errors::KatherineError;
use crate::kickstarter::KickstarterView;
use crate::types::{BalanceJSON, EpochMillis, KickstarterId, KickstarterIdJSON};
use crate::utils::{account_receiver, convert_to_valid_account_id, is_close, spec_is_close};
use crate::withdraw::valid_account;

verus! {

impl KickstarterView {
    /// Whether a claim of `amount` tokens is the supporter's last one in a
    /// kickstarter whose funds were unfrozen: no stNEAR is left to withdraw
    /// and `amount` is all the rewards still owed.
    pub open spec fn spec_claim_leaves(self, supporter: Seq<char>, amount: u128) -> Result<bool, KatherineError> {
        if self.stnear_price_at_unfreeze is None {
            Ok(false)
        } else {
            match self.spec_after_unfreeze_deposits(supporter) {
                Err(e) => Err(e),
                Ok(after) => if after < self.stnear_withdraw_of(supporter) {
                    Err(KatherineError::ArithmeticOverflow)
                } else if after - self.stnear_withdraw_of(supporter) == 0 {
                    match self.spec_supporter_rewards(supporter, self.winner_goal().tokens_to_release_per_stnear) {
                        Err(e) => Err(e),
                        Ok(total) => Ok(total == amount),
                    }
                } else {
                    Ok(false)
                },
            }
        }
    }
}

impl KatherineView {
    /// The outcome of recording a claim of `requested` project tokens by
    /// `supporter` in kickstarter `id` at time `now`: the state and the amount
    /// recorded (all the available rewards when `requested` is within one
    /// milli-NEAR of them).
    pub open spec fn spec_update_supporter_claims(
        self,
        requested: u128,
        id: KickstarterId,
        supporter: Seq<char>,
        now: EpochMillis,
    ) -> Result<(KatherineView, u128), KatherineError> {
        let k = self.kickstarters[id as int];
        if requested == 0 {
            Err(KatherineError::NoAvailableKickstarterTokens)
        } else if k.winner_goal_id is None {
            Err(KatherineError::NoGoalDefined)
        } else if k.successful != Some(true) {
            Err(KatherineError::KickstarterWasUnsuccessful)
        } else if !(k.winner_goal().cliff_timestamp < now) {
            Err(KatherineError::TokensNotReleased)
        } else {
            match k.spec_available_rewards(supporter, now) {
                Err(e) => Err(e),
                Ok(rewards) => if requested > rewards {
                    Err(KatherineError::NotEnoughTokens { available: rewards })
                } else if rewards + ONE_MILLI_NEAR > u128::MAX {
                    Err(KatherineError::ArithmeticOverflow)
                } else {
                    let amount = if spec_is_close(requested, rewards) { rewards } else { requested };
                    match k.spec_claim_leaves(supporter, amount) {
                        Err(e) => Err(e),
                        Ok(leaves) => if k.withdraw_of(supporter) + amount > u128::MAX {
                            Err(KatherineError::ArithmeticOverflow)
                        } else {
                            let base = self.set_kickstarter(
                                KickstarterView {
                                    withdraw: k.withdraw.insert(supporter, (k.withdraw_of(supporter) + amount) as u128),
                                    ..k
                                },
                            );
                            Ok((if leaves { base.drop_project(supporter, id) } else { base }, amount))
                        },
                    }
                },
            }
        }
    }

    /// The outcome of `supporter` claiming `requested` project tokens from
    /// kickstarter `id` at time `now`: the state and the amount claimed and
    /// sent (all the available rewards when `requested` is within one
    /// milli-NEAR of them).
    pub open spec fn spec_claim_kickstarter_tokens(self, requested: u128, id: KickstarterId, supporter: Seq<char>, now: EpochMillis) -> Result<
        (KatherineView, u128),
        KatherineError,
    > {
        match self.kickstarter(id) {
            Err(e) => Err(e),
            Ok(k) => match self.spec_update_supporter_claims(requested, id, supporter, now) {
                Err(e) => Err(e),
                Ok((v, amount)) => if !valid_account(supporter) {
                    Err(KatherineError::InvalidAccountId)
                } else {
                    Ok((v, amount))
                },
            },
        }
    }

    /// Gives back `amount` claimed tokens after a failed transfer, and the
    /// kickstarter to the supporter's projects.
    pub open spec fn spec_restore_supporter_withdraw_from_kickstarter(self, amount: u128, id: KickstarterId, supporter: Seq<char>) -> Result<
        KatherineView,
        KatherineError,
    > {
        match self.kickstarter(id) {
            Err(e) => Err(e),
            Ok(k) => {
                let w = k.withdraw_of(supporter);
                if w < amount {
                    Err(KatherineError::WithdrawAmountTooHigh)
                } else {
                    Ok(
                        self.set_kickstarter(
                            KickstarterView {
                                withdraw: if w == amount {
                                    k.withdraw.remove(supporter)
                                } else {
                                    k.withdraw.insert(supporter, (w - amount) as u128)
                                },
                                ..k
                            },
                        ).add_project(supporter, id),
                    )
                }
            },
        }
    }

    /// The project tokens the kickstarter may take back: all of them when it
    /// failed, and beyond the supporters' rewards and Katherine's fee when it
    /// succeeded.
    pub open spec fn spec_excedent(k: KickstarterView) -> Result<u128, KatherineError> {
        match k.successful {
            Some(true) => {
                let owed = k.katherine_fee.unwrap() + k.total_tokens_to_release.unwrap();
                if owed > u128::MAX || k.available_reward_tokens < owed {
                    Err(KatherineError::ArithmeticOverflow)
                } else {
                    Ok((k.available_reward_tokens - owed) as u128)
                }
            },
            Some(false) => Ok(k.available_reward_tokens),
            None => Err(KatherineError::NotEvaluated),
        }
    }

    /// The outcome of the kickstarter's owner `caller` taking back its excess
    /// project tokens after the funding period, at time `now`: the state and
    /// the amount sent.
    pub open spec fn spec_kickstarter_withdraw_excedent(self, id: KickstarterId, caller: Seq<char>, now: EpochMillis) -> Result<
        (KatherineView, u128),
        KatherineError,
    > {
        match self.kickstarter(id) {
            Err(e) => Err(e),
            Ok(k) => if caller != k.owner_id {
                Err(KatherineError::OnlyAdmin)
            } else if !(k.close_timestamp < now) {
                Err(KatherineError::ExcedentBeforeFundingEnds)
            } else {
                match Self::spec_excedent(k) {
                    Err(e) => Err(e),
                    Ok(excedent) => if excedent == 0 {
                        Err(KatherineError::NoExcedent)
                    } else if !valid_account(caller) {
                        Err(KatherineError::InvalidAccountId)
                    } else {
                        Ok(
                            (
                                self.set_kickstarter(
                                    KickstarterView {
                                        available_reward_tokens: (k.available_reward_tokens - excedent) as u128,
                                        ..k
                                    },
                                ),
                                excedent,
                            ),
                        )
                    },
                }
            },
        }
    }

    /// The outcome of the contract's owner `caller` taking Katherine's fee
    /// from a successful, closed kickstarter at time `now`: the state and the
    /// fee sent.
    pub open spec fn spec_withdraw_katherine_fee(self, id: KickstarterId, caller: Seq<char>, now: EpochMillis) -> Result<
        (KatherineView, u128),
        KatherineError,
    > {
        if caller != self.owner_id {
            Err(KatherineError::OnlyAdmin)
        } else {
            match self.kickstarter(id) {
                Err(e) => Err(e),
                Ok(k) => if !(k.close_timestamp < now) {
                    Err(KatherineError::FeeBeforeClose)
                } else if k.successful != Some(true) {
                    Err(KatherineError::KickstarterWasUnsuccessful)
                } else if k.katherine_fee.unwrap() == 0 {
                    Err(KatherineError::KatherineFeeIsZero)
                } else if !valid_account(caller) {
                    Err(KatherineError::InvalidAccountId)
                } else {
                    Ok(
                        (
                            self.set_kickstarter(KickstarterView { katherine_fee: Some(0), ..k }),
                            k.katherine_fee.unwrap(),
                        ),
                    )
                },
            }
        }
    }
}

impl KatherineFundraising {
    /// Checks a claim of project tokens by the supporter: the amount to
    /// record and whether the claim ends the supporter's part.
    fn check_supporter_claims(
        &self,
        requested_amount: u128,
        kickstarter_id: KickstarterId,
        supporter_id: &String,
        now: EpochMillis,
    ) -> (r: Result<(u128, bool), KatherineError>)
        requires
            self.wf(),
            kickstarter_id < self.kickstarters@.len(),
        ensures
            match self@.spec_update_supporter_claims(requested_amount, kickstarter_id, supporter_id@, now) {
                Ok((v, amount)) => r matches Ok((a, leaves)) && a == amount && {
                    let k = self@.kickstarters[kickstarter_id as int];
                    let base = self@.set_kickstarter(
                        KickstarterView {
                            withdraw: k.withdraw.insert(supporter_id@, (k.withdraw_of(supporter_id@) + amount) as u128),
                            ..k
                        },
                    );
                    &&& k.withdraw_of(supporter_id@) + amount <= u128::MAX
                    &&& v == if leaves { base.drop_project(supporter_id@, kickstarter_id) } else { base }
                },
                Err(e) => r == Err::<(u128, bool), KatherineError>(e),
            },
    {
        if requested_amount == 0 {
            return Err(KatherineError::NoAvailableKickstarterTokens);
        }
        let k = &self.kickstarters[kickstarter_id as usize];
        let goal = k.get_winner_goal()?;
        if k.successful != Some(true) {
            return Err(KatherineError::KickstarterWasUnsuccessful);
        }
        if !(goal.cliff_timestamp < now) {
            return Err(KatherineError::TokensNotReleased);
        }
        let rewards = self.internal_get_available_rewards(supporter_id, k, now)?;
        if requested_amount > rewards {
            return Err(KatherineError::NotEnoughTokens { available: rewards });
        }
        if rewards > u128::MAX - ONE_MILLI_NEAR {
            return Err(KatherineError::ArithmeticOverflow);
        }
        let amount_to_withdraw = if is_close(requested_amount, rewards) {
            rewards
        } else {
            requested_amount
        };
        let leaves = self.remove_from_supported_claim(amount_to_withdraw, kickstarter_id, supporter_id)?;
        let current_withdraw = k.get_withdraw(supporter_id);
        if current_withdraw > u128::MAX - amount_to_withdraw {
            return Err(KatherineError::ArithmeticOverflow);
        }
        Ok((amount_to_withdraw, leaves))
    }

    /// Adds `amount_to_withdraw` to the supporter's claimed tokens and, when
    /// `leaves`, removes the kickstarter from the supporter's projects.
    fn apply_supporter_claims(
        &mut self,
        amount_to_withdraw: u128,
        leaves: bool,
        kickstarter_id: KickstarterId,
        supporter_id: &String,
    )
        requires
            old(self).wf(),
            kickstarter_id < old(self).kickstarters@.len(),
            old(self)@.kickstarters[kickstarter_id as int].withdraw_of(supporter_id@) + amount_to_withdraw <= u128::MAX,
        ensures
            final(self).wf(),
            ({
                let k = old(self)@.kickstarters[kickstarter_id as int];
                let base = old(self)@.set_kickstarter(
                    KickstarterView {
                        withdraw: k.withdraw.insert(supporter_id@, (k.withdraw_of(supporter_id@) + amount_to_withdraw) as u128),
                        ..k
                    },
                );
                final(self)@ == if leaves { base.drop_project(supporter_id@, kickstarter_id) } else { base }
            }),
    {
        let i = kickstarter_id as usize;
        let current_withdraw = self.kickstarters[i].get_withdraw(supporter_id);
        let ghost old_view = self@;
        self.kickstarters[i].withdraw.insert(supporter_id.clone(), current_withdraw + amount_to_withdraw);
        let ghost mid = self@;
        proof {
            assert(mid =~= old_view.set_kickstarter(self.kickstarters@[i as int]@));
        }
        if leaves {
            self.drop_supported_project(supporter_id, kickstarter_id);
        }
    }

    /// Records a claim of project tokens by the supporter.
    pub fn update_supporter_claims(
        &mut self,
        requested_amount: u128,
        kickstarter_id: KickstarterId,
        supporter_id: &String,
        now: EpochMillis,
    ) -> (r: Result<(), KatherineError>)
        requires
            old(self).wf(),
            kickstarter_id < old(self).kickstarters@.len(),
        ensures
            final(self).wf(),
            match old(self)@.spec_update_supporter_claims(requested_amount, kickstarter_id, supporter_id@, now) {
                Ok((v, amount)) => r is Ok && final(self)@ == v,
                Err(e) => r == Err::<(), KatherineError>(e) && *final(self) == *old(self),
            },
    {
        let (amount_to_withdraw, leaves) = self.check_supporter_claims(requested_amount, kickstarter_id, supporter_id, now)?;
        self.apply_supporter_claims(amount_to_withdraw, leaves, kickstarter_id, supporter_id);
        Ok(())
    }

    /// Whether the claim of `amount_to_withdraw` ends the supporter's part in
    /// a kickstarter whose funds were unfrozen (see `spec_claim_leaves`).
    fn remove_from_supported_claim(
        &self,
        amount_to_withdraw: u128,
        kickstarter_id: KickstarterId,
        supporter_id: &String,
    ) -> (r: Result<bool, KatherineError>)
        requires
            self.wf(),
            kickstarter_id < self.kickstarters@.len(),
            self@.kickstarters[kickstarter_id as int].successful == Some(true),
        ensures
            r == self@.kickstarters[kickstarter_id as int].spec_claim_leaves(supporter_id@, amount_to_withdraw),
    {
        let k = &self.kickstarters[kickstarter_id as usize];
        if !k.is_unfreeze() {
            return Ok(false);
        }
        let entity = WithdrawEntity::Supporter(supporter_id.clone());
        let after = k.get_after_unfreeze_deposits(supporter_id)?;
        let withdrawn = k.get_stnear_withdraw(&entity);
        if after < withdrawn {
            return Err(KatherineError::ArithmeticOverflow);
        }
        if after - withdrawn == 0 {
            let goal = k.get_winner_goal()?;
            let total_supporter_rewards = self.internal_get_supporter_rewards(
                supporter_id,
                k,
                goal.tokens_to_release_per_stnear,
            )?;
            Ok(total_supporter_rewards == amount_to_withdraw)
        } else {
            Ok(false)
        }
    }

    /// Claims project tokens for `supporter_id` and returns the transfer to make.
    pub fn internal_claim_kickstarter_tokens(
        &mut self,
        requested_amount: BalanceJSON,
        kickstarter_id: KickstarterId,
        supporter_id: String,
        now: EpochMillis,
    ) -> (r: Result<PromiseAction, KatherineError>)
        requires
            old(self).wf(),
            kickstarter_id < old(self).kickstarters@.len(),
        ensures
            final(self).wf(),
            match old(self)@.spec_claim_kickstarter_tokens(requested_amount, kickstarter_id, supporter_id@, now) {
                Ok((v, amount)) => final(self)@ == v && (r matches Ok(a) && a@ == (PromiseActionView::FtTransfer {
                    token_contract: old(self)@.kickstarters[kickstarter_id as int].token_contract_address,
                    receiver_id: account_receiver(supporter_id@),
                    amount,
                    memo: None,
                    then: CallbackView::ReturnTokensFromKickstarter { supporter_id: supporter_id@, kickstarter_id, amount },
                })),
                Err(e) => r == Err::<PromiseAction, KatherineError>(e) && *final(self) == *old(self),
            },
    {
        let token_contract = self.kickstarters[kickstarter_id as usize].token_contract_address.clone();
        let (amount_to_withdraw, leaves) = self.check_supporter_claims(requested_amount, kickstarter_id, &supporter_id, now)?;
        let receiver_id = convert_to_valid_account_id(supporter_id.clone())?;
        self.apply_supporter_claims(amount_to_withdraw, leaves, kickstarter_id, &supporter_id);
        Ok(PromiseAction::FtTransfer {
            token_contract,
            receiver_id,
            amount: amount_to_withdraw,
            memo: None,
            then: Callback::ReturnTokensFromKickstarter { supporter_id, kickstarter_id, amount: amount_to_withdraw },
        })
    }
}

impl KatherineView {
    /// Gives back `amount` project tokens to kickstarter `id` after a failed
    /// transfer of its excess.
    pub open spec fn spec_restore_kickstarter_excedent_withdraw(self, amount: u128, id: KickstarterId) -> Result<
        KatherineView,
        KatherineError,
    > {
        match self.kickstarter(id) {
            Err(e) => Err(e),
            Ok(k) => if k.available_reward_tokens + amount > u128::MAX {
                Err(KatherineError::ArithmeticOverflow)
            } else {
                Ok(
                    self.set_kickstarter(
                        KickstarterView { available_reward_tokens: (k.available_reward_tokens + amount) as u128, ..k },
                    ),
                )
            },
        }
    }

    /// Puts Katherine's fee of kickstarter `id` back to `amount` after a
    /// failed transfer.
    pub open spec fn spec_restore_katherine_fee(self, amount: u128, id: KickstarterId) -> Result<KatherineView, KatherineError> {
        match self.kickstarter(id) {
            Err(e) => Err(e),
            Ok(k) => Ok(self.set_kickstarter(KickstarterView { katherine_fee: Some(amount), ..k })),
        }
    }
}

impl KatherineFundraising {
    /// The caller claims `amount` project tokens from kickstarter
    /// `kickstarter_id`; returns the transfer to make.
    pub fn claim_kickstarter_tokens(
        &mut self,
        amount: BalanceJSON,
        kickstarter_id: KickstarterIdJSON,
        predecessor_account_id: &String,
        now: EpochMillis,
    ) -> (r: Result<PromiseAction, KatherineError>)
        requires
            old(self).wf(),
        ensures
            final(self).wf(),
            match old(self)@.spec_claim_kickstarter_tokens(amount, kickstarter_id, predecessor_account_id@, now) {
                Ok((v, sent)) => final(self)@ == v && (r matches Ok(a) && a@ == (PromiseActionView::FtTransfer {
                    token_contract: old(self)@.kickstarters[kickstarter_id as int].token_contract_address,
                    receiver_id: account_receiver(predecessor_account_id@),
                    amount: sent,
                    memo: None,
                    then: CallbackView::ReturnTokensFromKickstarter {
                        supporter_id: predecessor_account_id@,
                        kickstarter_id,
                        amount: sent,
                    },
                })),
                Err(e) => r == Err::<PromiseAction, KatherineError>(e) && *final(self) == *old(self),
            },
    {
        let _ = self.internal_get_kickstarter(kickstarter_id)?;
        self.internal_claim_kickstarter_tokens(amount, kickstarter_id, predecessor_account_id.clone(), now)
    }

    /// Settles a claim of project tokens: on success an empty supporter
    /// record is removed; on failure the claim is taken back.
    pub fn return_tokens_from_kickstarter_callback(
        &mut self,
        supporter_id: String,
        kickstarter_id: KickstarterIdJSON,
        amount: BalanceJSON,
        transfer_succeeded: bool,
    ) -> (r: Result<(), KatherineError>)
        requires
            old(self).wf(),
        ensures
            final(self).wf(),
            transfer_succeeded ==> r is Ok && final(self)@ == old(self)@.remove_if_empty(supporter_id@),
            !transfer_succeeded ==> match old(self)@.spec_restore_supporter_withdraw_from_kickstarter(
                amount,
                kickstarter_id,
                supporter_id@,
            ) {
                Ok(v) => r is Ok && final(self)@ == v,
                Err(e) => r == Err::<(), KatherineError>(e) && *final(self) == *old(self),
            },
    {
        if transfer_succeeded {
            self.remove_supporter_if_empty(&supporter_id);
            Ok(())
        } else {
            self.internal_restore_supporter_withdraw_from_kickstarter(amount, kickstarter_id, supporter_id)
        }
    }

    /// Takes back a failed claim of `amount` project tokens and puts the
    /// kickstarter back among the supporter's projects.
    pub fn internal_restore_supporter_withdraw_from_kickstarter(
        &mut self,
        amount: u128,
        kickstarter_id: KickstarterId,
        supporter_id: String,
    ) -> (r: Result<(), KatherineError>)
        requires
            old(self).wf(),
        ensures
            final(self).wf(),
            match old(self)@.spec_restore_supporter_withdraw_from_kickstarter(amount, kickstarter_id, supporter_id@) {
                Ok(v) => r is Ok && final(self)@ == v,
                Err(e) => r == Err::<(), KatherineError>(e) && *final(self) == *old(self),
            },
    {
        let k = self.internal_get_kickstarter(kickstarter_id)?;
        let i = kickstarter_id as usize;
        let withdraw = k.get_withdraw(&supporter_id);
        if withdraw < amount {
            return Err(KatherineError::WithdrawAmountTooHigh);
        }
        let ghost old_view = self@;
        if withdraw == amount {
            self.kickstarters[i].withdraw.remove(&supporter_id);
        } else {
            self.kickstarters[i].withdraw.insert(supporter_id.clone(), withdraw - amount);
        }
        let ghost mid = self@;
        proof {
            assert(mid =~= old_view.set_kickstarter(self.kickstarters@[i as int]@));
        }
        self.add_supported_project(&supporter_id, kickstarter_id);
        Ok(())
    }

    /// Sends `excedent` project tokens back to the kickstarter's owner
    /// `predecessor_account_id`; returns the transfer to make.
    pub fn internal_withdraw_excedent(
        &mut self,
        kickstarter_id: KickstarterId,
        excedent: u128,
        predecessor_account_id: &String,
    ) -> (r: Result<PromiseAction, KatherineError>)
        requires
            old(self).wf(),
            kickstarter_id < old(self).kickstarters@.len(),
            excedent <= old(self)@.kickstarters[kickstarter_id as int].available_reward_tokens,
        ensures
            final(self).wf(),
            ({
                let k = old(self)@.kickstarters[kickstarter_id as int];
                if valid_account(predecessor_account_id@) {
                    &&& final(self)@ == old(self)@.set_kickstarter(
                        KickstarterView { available_reward_tokens: (k.available_reward_tokens - excedent) as u128, ..k },
                    )
                    &&& r matches Ok(a) && a@ == (PromiseActionView::FtTransfer {
                        token_contract: k.token_contract_address,
                        receiver_id: account_receiver(predecessor_account_id@),
                        amount: excedent,
                        memo: Some("withdraw excedent from kickstarter"@),
                        then: CallbackView::KickstarterWithdrawExcedent { kickstarter_id, amount: excedent },
                    })
                } else {
                    r == Err::<PromiseAction, KatherineError>(KatherineError::InvalidAccountId) && *final(self) == *old(self)
                }
            }),
    {
        let receiver_id = convert_to_valid_account_id(predecessor_account_id.clone())?;
        let i = kickstarter_id as usize;
        let token_contract = self.kickstarters[i].token_contract_address.clone();
        let ghost old_view = self@;
        self.kickstarters[i].available_reward_tokens = self.kickstarters[i].available_reward_tokens - excedent;
        proof {
            assert(self@ =~= old_view.set_kickstarter(self.kickstarters@[i as int]@));
        }
        Ok(PromiseAction::FtTransfer {
            token_contract,
            receiver_id,
            amount: excedent,
            memo: Some(String::from_str("withdraw excedent from kickstarter")),
            then: Callback::KickstarterWithdrawExcedent { kickstarter_id, amount: excedent },
        })
    }
}

impl KatherineFundraising {
    /// The kickstarter's owner takes back the project tokens that no one is
    /// owed, once the funding period is over; returns the transfer to make.
    pub fn kickstarter_withdraw_excedent(
        &mut self,
        kickstarter_id: KickstarterIdJSON,
        predecessor_account_id: &String,
        now: EpochMillis,
    ) -> (r: Result<PromiseAction, KatherineError>)
        requires
            old(self).wf(),
        ensures
            final(self).wf(),
            match old(self)@.spec_kickstarter_withdraw_excedent(kickstarter_id, predecessor_account_id@, now) {
                Ok((v, excedent)) => final(self)@ == v && (r matches Ok(a) && a@ == (PromiseActionView::FtTransfer {
                    token_contract: old(self)@.kickstarters[kickstarter_id as int].token_contract_address,
                    receiver_id: account_receiver(predecessor_account_id@),
                    amount: excedent,
                    memo: Some("withdraw excedent from kickstarter"@),
                    then: CallbackView::KickstarterWithdrawExcedent { kickstarter_id, amount: excedent },
                })),
                Err(e) => r == Err::<PromiseAction, KatherineError>(e) && *final(self) == *old(self),
            },
    {
        let kickstarter = self.internal_get_kickstarter(kickstarter_id)?;
        kickstarter.assert_kickstarter_owner(predecessor_account_id)?;
        if !(kickstarter.close_timestamp < now) {
            return Err(KatherineError::ExcedentBeforeFundingEnds);
        }
        let excedent: u128 = match kickstarter.successful {
            Some(true) => {
                let katherine_fee = kickstarter.katherine_fee.unwrap();
                let total_tokens_to_release = kickstarter.total_tokens_to_release.unwrap();
                if katherine_fee > u128::MAX - total_tokens_to_release {
                    return Err(KatherineError::ArithmeticOverflow);
                }
                let owed = katherine_fee + total_tokens_to_release;
                if kickstarter.available_reward_tokens < owed {
                    return Err(KatherineError::ArithmeticOverflow);
                }
                kickstarter.available_reward_tokens - owed
            },
            Some(false) => kickstarter.available_reward_tokens,
            None => return Err(KatherineError::NotEvaluated),
        };
        if excedent == 0 {
            return Err(KatherineError::NoExcedent);
        }
        self.internal_withdraw_excedent(kickstarter_id, excedent, predecessor_account_id)
    }

    /// Settles the transfer of the kickstarter's excess project tokens; on
    /// failure the tokens are given back to the kickstarter.
    pub fn kickstarter_withdraw_excedent_callback(
        &mut self,
        kickstarter_id: KickstarterIdJSON,
        amount: BalanceJSON,
        transfer_succeeded: bool,
    ) -> (r: Result<(), KatherineError>)
        requires
            old(self).wf(),
        ensures
            final(self).wf(),
            transfer_succeeded ==> r is Ok && *final(self) == *old(self),
            !transfer_succeeded ==> match old(self)@.spec_restore_kickstarter_excedent_withdraw(amount, kickstarter_id) {
                Ok(v) => r is Ok && final(self)@ == v,
                Err(e) => r == Err::<(), KatherineError>(e) && *final(self) == *old(self),
            },
    {
        if transfer_succeeded {
            Ok(())
        } else {
            self.internal_restore_kickstarter_excedent_withdraw(amount, kickstarter_id)
        }
    }

    /// Gives back `amount` project tokens to the kickstarter after a failed
    /// transfer of its excess.
    pub fn internal_restore_kickstarter_excedent_withdraw(
        &mut self,
        amount: u128,
        kickstarter_id: KickstarterId,
    ) -> (r: Result<(), KatherineError>)
        requires
            old(self).wf(),
        ensures
            final(self).wf(),
            match old(self)@.spec_restore_kickstarter_excedent_withdraw(amount, kickstarter_id) {
                Ok(v) => r is Ok && final(self)@ == v,
                Err(e) => r == Err::<(), KatherineError>(e) && *final(self) == *old(self),
            },
    {
        let k = self.internal_get_kickstarter(kickstarter_id)?;
        if k.available_reward_tokens > u128::MAX - amount {
            return Err(KatherineError::ArithmeticOverflow);
        }
        let i = kickstarter_id as usize;
        let ghost old_view = self@;
        self.kickstarters[i].available_reward_tokens = self.kickstarters[i].available_reward_tokens + amount;
        proof {
            assert(self@ =~= old_view.set_kickstarter(self.kickstarters@[i as int]@));
        }
        Ok(())
    }

    /// The contract's owner takes Katherine's fee from a successful kickstarter
    /// once its funding period is over; returns the transfer to make.
    pub fn withdraw_katherine_fee(
        &mut self,
        kickstarter_id: KickstarterIdJSON,
        predecessor_account_id: &String,
        now: EpochMillis,
    ) -> (r: Result<PromiseAction, KatherineError>)
        requires
            old(self).wf(),
        ensures
            final(self).wf(),
            match old(self)@.spec_withdraw_katherine_fee(kickstarter_id, predecessor_account_id@, now) {
                Ok((v, fee)) => final(self)@ == v && (r matches Ok(a) && a@ == (PromiseActionView::FtTransfer {
                    token_contract: old(self)@.kickstarters[kickstarter_id as int].token_contract_address,
                    receiver_id: account_receiver(predecessor_account_id@),
                    amount: fee,
                    memo: None,
                    then: CallbackView::WithdrawKickstarterFee { kickstarter_id, amount: fee },
                })),
                Err(e) => r == Err::<PromiseAction, KatherineError>(e) && *final(self) == *old(self),
            },
    {
        self.assert_only_admin(predecessor_account_id)?;
        let kickstarter = self.internal_get_kickstarter(kickstarter_id)?;
        if !(kickstarter.close_timestamp < now) {
            return Err(KatherineError::FeeBeforeClose);
        }
        if kickstarter.successful != Some(true) {
            return Err(KatherineError::KickstarterWasUnsuccessful);
        }
        let katherine_fee = kickstarter.katherine_fee.unwrap();
        if katherine_fee == 0 {
            return Err(KatherineError::KatherineFeeIsZero);
        }
        self.internal_withdraw_katherine_fee(kickstarter_id, katherine_fee, predecessor_account_id)
    }

    /// Sets Katherine's fee of the kickstarter to 0 and returns the transfer
    /// of `katherine_fee` tokens to `predecessor_account_id`.
    pub fn internal_withdraw_katherine_fee(
        &mut self,
        kickstarter_id: KickstarterId,
        katherine_fee: u128,
        predecessor_account_id: &String,
    ) -> (r: Result<PromiseAction, KatherineError>)
        requires
            old(self).wf(),
            kickstarter_id < old(self).kickstarters@.len(),
        ensures
            final(self).wf(),
            ({
                let k = old(self)@.kickstarters[kickstarter_id as int];
                if valid_account(predecessor_account_id@) {
                    &&& final(self)@ == old(self)@.set_kickstarter(KickstarterView { katherine_fee: Some(0), ..k })
                    &&& r matches Ok(a) && a@ == (PromiseActionView::FtTransfer {
                        token_contract: k.token_contract_address,
                        receiver_id: account_receiver(predecessor_account_id@),
                        amount: katherine_fee,
                        memo: None,
                        then: CallbackView::WithdrawKickstarterFee { kickstarter_id, amount: katherine_fee },
                    })
                } else {
                    r == Err::<PromiseAction, KatherineError>(KatherineError::InvalidAccountId) && *final(self) == *old(self)
                }
            }),
    {
        let receiver_id = convert_to_valid_account_id(predecessor_account_id.clone())?;
        let i = kickstarter_id as usize;
        let token_contract = self.kickstarters[i].token_contract_address.clone();
        let ghost old_view = self@;
        self.kickstarters[i].katherine_fee = Some(0);
        proof {
            assert(self@ =~= old_view.set_kickstarter(self.kickstarters@[i as int]@));
        }
        Ok(PromiseAction::FtTransfer {
            token_contract,
            receiver_id,
            amount: katherine_fee,
            memo: None,
            then: Callback::WithdrawKickstarterFee { kickstarter_id, amount: katherine_fee },
        })
    }

    /// Settles the transfer of Katherine's fee; on failure the fee is put back.
    pub fn withdraw_kickstarter_fee_callback(
        &mut self,
        kickstarter_id: KickstarterIdJSON,
        amount: BalanceJSON,
        transfer_succeeded: bool,
    ) -> (r: Result<(), KatherineError>)
        requires
            old(self).wf(),
        ensures
            final(self).wf(),
            transfer_succeeded ==> r is Ok && *final(self) == *old(self),
            !transfer_succeeded ==> match old(self)@.spec_restore_katherine_fee(amount, kickstarter_id) {
                Ok(v) => r is Ok && final(self)@ == v,
                Err(e) => r == Err::<(), KatherineError>(e) && *final(self) == *old(self),
            },
    {
        if transfer_succeeded {
            return Ok(());
        }
        let _ = self.internal_get_kickstarter(kickstarter_id)?;
        let i = kickstarter_id as usize;
        let ghost old_view = self@;
        self.kickstarters[i].katherine_fee = Some(amount);
        proof {
            assert(self@ =~= old_view.set_kickstarter(self.kickstarters@[i as int]@));
        }
        Ok(())
    }

    /// Katherine's fee of a successful kickstarter.
    pub fn get_admin_fee_rewards(&self, kickstarter_id: KickstarterIdJSON) -> (r: Result<BalanceJSON, KatherineError>)
        requires
            self.wf(),
        ensures
            r == match self@.kickstarter(kickstarter_id) {
                Err(e) => Err(e),
                Ok(k) => if k.successful == Some(true) {
                    Ok(k.katherine_fee.unwrap())
                } else {
                    Err(KatherineError::KickstarterWasUnsuccessful)
                },
            },
    {
        let kickstarter = self.internal_get_kickstarter(kickstarter_id)?;
        if kickstarter.successful == Some(true) {
            Ok(kickstarter.katherine_fee.unwrap())
        } else {
            Err(KatherineError::KickstarterWasUnsuccessful)
        }
    }
}

impl KatherineView {
    /// The outcome of `caller` claiming all the project tokens available to
    /// it in kickstarter `id` at time `now`: the state and the amount claimed.
    pub open spec fn spec_claim_all_kickstarter_tokens(self, id: KickstarterId, caller: Seq<char>, now: EpochMillis) -> Result<
        (KatherineView, u128),
        KatherineError,
    > {
        if !valid_account(caller) {
            Err(KatherineError::InvalidAccountId)
        } else {
            match self.spec_supporter_available_rewards(account_receiver(caller), id, now) {
                Err(e) => Err(e),
                Ok(None) => Err(KatherineError::NoAvailableKickstarterTokens),
                Ok(Some(amount)) => self.spec_claim_kickstarter_tokens(amount, id, caller, now),
            }
        }
    }
}

impl KatherineFundraising {
    /// The caller claims all the project tokens available to it now; returns
    /// the transfer to make.
    pub fn claim_all_kickstarter_tokens(
        &mut self,
        kickstarter_id: KickstarterIdJSON,
        predecessor_account_id: &String,
        now: EpochMillis,
    ) -> (r: Result<PromiseAction, KatherineError>)
        requires
            old(self).wf(),
        ensures
            final(self).wf(),
            match old(self)@.spec_claim_all_kickstarter_tokens(kickstarter_id, predecessor_account_id@, now) {
                Ok((v, amount)) => final(self)@ == v && (r matches Ok(a) && a@ == (PromiseActionView::FtTransfer {
                    token_contract: old(self)@.kickstarters[kickstarter_id as int].token_contract_address,
                    receiver_id: account_receiver(predecessor_account_id@),
                    amount,
                    memo: None,
                    then: CallbackView::ReturnTokensFromKickstarter {
                        supporter_id: predecessor_account_id@,
                        kickstarter_id,
                        amount,
                    },
                })),
                Err(e) => r == Err::<PromiseAction, KatherineError>(e) && *final(self) == *old(self),
            },
    {
        let supporter_id = convert_to_valid_account_id(predecessor_account_id.clone())?;
        let available_rewards = self.get_supporter_available_rewards(&supporter_id, kickstarter_id, now)?;
        match available_rewards {
            Some(amount) => self.claim_kickstarter_tokens(amount, kickstarter_id, predecessor_account_id, now),
            None => Err(KatherineError::NoAvailableKickstarterTokens),
        }
    }
}

} // verus!
