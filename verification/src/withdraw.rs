//! Withdrawals of stNEAR by supporters: all of it before the funds are
//! frozen, and after the unfreeze the amount that keeps the deposit's value
//! in NEAR.

use vstd::prelude::*;

use crate::actions::{Callback, CallbackView, PromiseAction, PromiseActionView};
use crate::collections::{seq_insert_value, seq_swap_remove_value};
use crate::constants::{
    WithdrawEntity, FIVE_TGAS, GAS_FOR_FT_TRANSFER, GAS_FOR_RESOLVE_TRANSFER, ONE_MILLI_NEAR,
};
use crate::contract::{supporter_wf, KatherineFundraising, KatherineView};
use crate::errors::KatherineError;
use crate::kickstarter::KickstarterView;
use crate::supporter::SupporterView;
use crate::types::{BalanceJSON, EpochMillis, KickstarterId, KickstarterIdJSON};
use crate::laws::law_withdraw_all_is_withdraw;
use crate::utils::{
    account_receiver, convert_to_valid_account_id, is_close, plain_json_chars, spec_account_from_json, spec_is_close,
};

verus! {

/// `id`, read as the content of a JSON string, names a valid NEAR account.
pub open spec fn valid_account(id: Seq<char>) -> bool {
    spec_account_from_json(id) is Some
}

impl KatherineView {
    /// The state with kickstarter `id` removed from `supporter`'s projects.
    pub open spec fn drop_project(self, supporter: Seq<char>, id: KickstarterId) -> KatherineView {
        let s = self.supporter_or_new(supporter);
        self.put_supporter(supporter, SupporterView { kickstarters: seq_swap_remove_value(s.kickstarters, id), ..s })
    }

    /// The state with kickstarter `id` added to `supporter`'s projects.
    pub open spec fn add_project(self, supporter: Seq<char>, id: KickstarterId) -> KatherineView {
        let s = self.supporter_or_new(supporter);
        self.put_supporter(supporter, SupporterView { kickstarters: seq_insert_value(s.kickstarters, id), ..s })
    }

    /// The state without `supporter`'s record when that record holds nothing.
    pub open spec fn remove_if_empty(self, supporter: Seq<char>) -> KatherineView {
        if self.supporter_or_new(supporter).spec_is_empty() {
            KatherineView { supporters: self.supporters.remove(supporter), ..self }
        } else {
            self
        }
    }

    /// Takes `amount` from `supporter`'s deposit of `deposit` in kickstarter
    /// `id`; the total deposited moves only within the funding period, and a
    /// supporter who takes everything no longer supports the kickstarter.
    pub open spec fn apply_withdraw_before_freeze(
        self,
        amount: u128,
        deposit: u128,
        id: KickstarterId,
        supporter: Seq<char>,
        now: EpochMillis,
    ) -> KatherineView {
        let k = self.kickstarters[id as int];
        let nk = KickstarterView {
            deposits: if deposit == amount {
                k.deposits.remove(supporter)
            } else {
                k.deposits.insert(supporter, (deposit - amount) as u128)
            },
            deposit_order: if deposit == amount {
                seq_swap_remove_value(k.deposit_order, supporter)
            } else {
                seq_insert_value(k.deposit_order, supporter)
            },
            total_deposited: if k.spec_is_within_funding_period(now) {
                (k.total_deposited - amount) as u128
            } else {
                k.total_deposited
            },
            ..k
        };
        if deposit == amount {
            self.set_kickstarter(nk).drop_project(supporter, id)
        } else {
            self.set_kickstarter(nk)
        }
    }

    /// The outcome of `supporter` withdrawing `requested` stNEAR from
    /// kickstarter `id` before its funds are frozen: the state and the amount
    /// sent (the whole deposit when `requested` is within one milli-NEAR of it).
    pub open spec fn spec_withdraw_before_freeze(
        self,
        requested: u128,
        id: KickstarterId,
        supporter: Seq<char>,
        now: EpochMillis,
    ) -> Result<(KatherineView, u128), KatherineError> {
        let k = self.kickstarters[id as int];
        if !k.deposits.contains_key(supporter) {
            Err(KatherineError::SupporterNotInKickstarter)
        } else {
            let deposit = k.deposits[supporter];
            if requested > deposit {
                Err(KatherineError::NotAvailableAmount)
            } else if deposit + ONE_MILLI_NEAR > u128::MAX {
                Err(KatherineError::ArithmeticOverflow)
            } else {
                let amount = if spec_is_close(requested, deposit) { deposit } else { requested };
                if k.spec_is_within_funding_period(now) && k.total_deposited < amount {
                    Err(KatherineError::ArithmeticOverflow)
                } else if !valid_account(supporter) {
                    Err(KatherineError::InvalidAccountId)
                } else {
                    Ok((self.apply_withdraw_before_freeze(amount, deposit, id, supporter, now), amount))
                }
            }
        }
    }

    /// The outcome of `supporter` withdrawing `requested` stNEAR from
    /// kickstarter `id` after its funds were unfrozen: the state and the amount
    /// sent. A supporter who takes the last stNEAR and has no rewards left no
    /// longer supports the kickstarter.
    pub open spec fn spec_withdraw_after_unfreeze(self, requested: u128, id: KickstarterId, supporter: Seq<char>) -> Result<
        (KatherineView, u128),
        KatherineError,
    > {
        let k = self.kickstarters[id as int];
        match k.spec_after_unfreeze_deposits(supporter) {
            Err(e) => Err(e),
            Ok(after) => {
                let withdrawn = k.stnear_withdraw_of(supporter);
                if after < withdrawn {
                    Err(KatherineError::ArithmeticOverflow)
                } else {
                    let available = (after - withdrawn) as u128;
                    if !(available > 0 && requested <= available) {
                        Err(KatherineError::NotAvailableAmount)
                    } else if available + ONE_MILLI_NEAR > u128::MAX {
                        Err(KatherineError::ArithmeticOverflow)
                    } else {
                        let amount = if spec_is_close(requested, available) { available } else { requested };
                        if withdrawn + amount > u128::MAX {
                            Err(KatherineError::ArithmeticOverflow)
                        } else {
                            let base = self.set_kickstarter(
                                KickstarterView {
                                    stnear_withdraw: k.stnear_withdraw.insert(supporter, (withdrawn + amount) as u128),
                                    ..k
                                },
                            );
                            if available == amount {
                                match k.spec_supporter_rewards(supporter, k.winner_goal().tokens_to_release_per_stnear) {
                                    Err(e) => Err(e),
                                    Ok(rewards) => if !valid_account(supporter) {
                                        Err(KatherineError::InvalidAccountId)
                                    } else if rewards == 0 {
                                        Ok((base.drop_project(supporter, id), amount))
                                    } else {
                                        Ok((base, amount))
                                    },
                                }
                            } else if !valid_account(supporter) {
                                Err(KatherineError::InvalidAccountId)
                            } else {
                                Ok((base, amount))
                            }
                        }
                    }
                }
            },
        }
    }

    /// The outcome of `caller` withdrawing `amount` stNEAR from kickstarter
    /// `id` at time `now` with `prepaid_gas` attached: the state, the amount
    /// sent, and whether the funds had been unfrozen.
    pub open spec fn spec_withdraw(
        self,
        amount: u128,
        id: KickstarterId,
        caller: Seq<char>,
        now: EpochMillis,
        prepaid_gas: u64,
    ) -> Result<(KatherineView, u128, bool), KatherineError> {
        if prepaid_gas <= GAS_FOR_FT_TRANSFER + GAS_FOR_RESOLVE_TRANSFER + FIVE_TGAS {
            Err(KatherineError::NotEnoughGas { required: (GAS_FOR_FT_TRANSFER + GAS_FOR_RESOLVE_TRANSFER + FIVE_TGAS) as u64 })
        } else {
            match self.kickstarter(id) {
                Err(e) => Err(e),
                Ok(k) => if amount == 0 {
                    Err(KatherineError::ZeroAmount)
                } else {
                    match k.successful {
                        Some(true) => if !(k.winner_goal().unfreeze_timestamp < now) {
                            Err(KatherineError::FundsStillFrozen)
                        } else if k.stnear_price_at_unfreeze is None {
                            Err(KatherineError::PriceAtUnfreezeNotDefined)
                        } else {
                            match self.spec_withdraw_after_unfreeze(amount, id, caller) {
                                Err(e) => Err(e),
                                Ok((v, a)) => Ok((v, a, true)),
                            }
                        },
                        Some(false) => match self.spec_withdraw_before_freeze(amount, id, caller, now) {
                            Err(e) => Err(e),
                            Ok((v, a)) => Ok((v, a, false)),
                        },
                        None => if now >= k.close_timestamp {
                            Err(KatherineError::FundingPeriodOverMustEvaluate)
                        } else {
                            match self.spec_withdraw_before_freeze(amount, id, caller, now) {
                                Err(e) => Err(e),
                                Ok((v, a)) => Ok((v, a, false)),
                            }
                        },
                    }
                },
            }
        }
    }

    /// Puts back `amount` in `supporter`'s deposit after a failed transfer,
    /// and the kickstarter in the supporter's projects when the deposit was gone.
    pub open spec fn spec_restore_withdraw_before_freeze(self, amount: u128, id: KickstarterId, supporter: Seq<char>) -> Result<
        KatherineView,
        KatherineError,
    > {
        match self.kickstarter(id) {
            Err(e) => Err(e),
            Ok(k) => if !k.deposits.contains_key(supporter) {
                Ok(
                    self.set_kickstarter(KickstarterView {
                        deposits: k.deposits.insert(supporter, amount),
                        deposit_order: seq_insert_value(k.deposit_order, supporter),
                        ..k
                    }).add_project(
                        supporter,
                        id,
                    ),
                )
            } else if k.deposits[supporter] + amount > u128::MAX {
                Err(KatherineError::ArithmeticOverflow)
            } else {
                Ok(
                    self.set_kickstarter(
                        KickstarterView {
                            deposits: k.deposits.insert(supporter, (k.deposits[supporter] + amount) as u128),
                            deposit_order: seq_insert_value(k.deposit_order, supporter),
                            ..k
                        },
                    ),
                )
            },
        }
    }

    /// Takes back `amount` from `supporter`'s stNEAR withdrawn after the
    /// unfreeze, after a failed transfer; the kickstarter returns to the
    /// supporter's projects when the supporter had withdrawn everything.
    pub open spec fn spec_restore_withdraw_after_unfreeze(self, amount: u128, id: KickstarterId, supporter: Seq<char>) -> Result<
        KatherineView,
        KatherineError,
    > {
        match self.kickstarter(id) {
            Err(e) => Err(e),
            Ok(k) => match k.spec_after_unfreeze_deposits(supporter) {
                Err(e) => Err(e),
                Ok(deposit) => {
                    let withdrawn = k.stnear_withdraw_of(supporter);
                    if withdrawn < amount {
                        Err(KatherineError::ArithmeticOverflow)
                    } else {
                        let base = self.set_kickstarter(
                            KickstarterView {
                                stnear_withdraw: k.stnear_withdraw.insert(supporter, (withdrawn - amount) as u128),
                                ..k
                            },
                        );
                        if withdrawn == deposit {
                            Ok(base.add_project(supporter, id))
                        } else {
                            Ok(base)
                        }
                    }
                },
            },
        }
    }
}

impl KatherineFundraising {
    pub(crate) proof fn lemma_wf_put_supporter(&self, old: &KatherineFundraising, supporter: Seq<char>)
        requires
            old.wf(),
            self.supporters.wf(),
            self.kickstarters@.len() == old.kickstarters@.len(),
            supporter_wf(self.supporters@[supporter], self.kickstarters@.len() as int),
            self.supporters@ == old.supporters@.insert(supporter, self.supporters@[supporter]),
        ensures
            forall|s: Seq<char>| #[trigger]
                self.supporters@.contains_key(s) ==> supporter_wf(self.supporters@[s], self.kickstarters@.len() as int),
    {
        assert forall|s: Seq<char>| #[trigger] self.supporters@.contains_key(s) implies supporter_wf(
            self.supporters@[s],
            self.kickstarters@.len() as int,
        ) by {
            if s != supporter {
                assert(old.supporters@.contains_key(s));
            }
        }
    }

    /// Removes kickstarter `kickstarter_id` from the supporter's projects.
    pub(crate) fn drop_supported_project(&mut self, supporter_id: &String, kickstarter_id: KickstarterId)
        requires
            old(self).wf(),
            kickstarter_id < old(self).kickstarters@.len(),
        ensures
            final(self).wf(),
            final(self)@ == old(self)@.drop_project(supporter_id@, kickstarter_id),
            final(self).kickstarters == old(self).kickstarters,
    {
        let mut supporter = self.internal_get_supporter(supporter_id);
        supporter.kickstarters.remove(kickstarter_id);
        proof {
            crate::collections::lemma_swap_remove_value_subset(old(self)@.supporter_or_new(supporter_id@).kickstarters, kickstarter_id);
            let ks = supporter@.kickstarters;
            assert forall|j: int| 0 <= j < ks.len() implies #[trigger] ks[j] < self.kickstarters@.len() by {
                let o = old(self)@.supporter_or_new(supporter_id@).kickstarters;
                assert(o.contains(ks[j]));
                let t = choose|t: int| 0 <= t < o.len() && o[t] == ks[j];
                if old(self).supporters@.contains_key(supporter_id@) {
                    assert(supporter_wf(old(self).supporters@[supporter_id@], old(self).kickstarters@.len() as int));
                }
            }
        }
        let ghost sup = supporter;
        self.supporters.insert(supporter_id.clone(), supporter);
        proof {
            self.lemma_wf_put_supporter(old(self), supporter_id@);
            assert(self@ =~= old(self)@.drop_project(supporter_id@, kickstarter_id));
        }
    }

    /// Adds kickstarter `kickstarter_id` to the supporter's projects.
    pub(crate) fn add_supported_project(&mut self, supporter_id: &String, kickstarter_id: KickstarterId)
        requires
            old(self).wf(),
            kickstarter_id < old(self).kickstarters@.len(),
        ensures
            final(self).wf(),
            final(self)@ == old(self)@.add_project(supporter_id@, kickstarter_id),
            final(self).kickstarters == old(self).kickstarters,
    {
        let mut supporter = self.internal_get_supporter(supporter_id);
        supporter.kickstarters.insert(kickstarter_id);
        self.supporters.insert(supporter_id.clone(), supporter);
        proof {
            self.lemma_wf_put_supporter(old(self), supporter_id@);
            assert(self@ =~= old(self)@.add_project(supporter_id@, kickstarter_id));
        }
    }

    /// Removes the supporter's record when it holds nothing.
    pub(crate) fn remove_supporter_if_empty(&mut self, supporter_id: &String)
        requires
            old(self).wf(),
        ensures
            final(self).wf(),
            final(self)@ == old(self)@.remove_if_empty(supporter_id@),
    {
        let supporter = self.internal_get_supporter(supporter_id);
        if supporter.is_empty() {
            self.supporters.remove(supporter_id);
            proof {
                assert(self@ =~= old(self)@.remove_if_empty(supporter_id@));
            }
        }
    }

    /// Withdraws stNEAR for `supporter_id` before the funds are frozen and
    /// returns the transfer to make.
    pub fn internal_supporter_withdraw_before_freeze(
        &mut self,
        requested_amount: u128,
        kickstarter_id: KickstarterId,
        supporter_id: String,
        now: EpochMillis,
    ) -> (r: Result<PromiseAction, KatherineError>)
        requires
            old(self).wf(),
            kickstarter_id < old(self).kickstarters@.len(),
        ensures
            final(self).wf(),
            match old(self)@.spec_withdraw_before_freeze(requested_amount, kickstarter_id, supporter_id@, now) {
                Ok((v, amount)) => final(self)@ == v && (r matches Ok(a) && a@ == (PromiseActionView::FtTransfer {
                    token_contract: old(self)@.metapool_contract_address,
                    receiver_id: account_receiver(supporter_id@),
                    amount,
                    memo: None,
                    then: CallbackView::ReturnTokensBeforeFreeze { supporter_id: supporter_id@, kickstarter_id, amount },
                })),
                Err(e) => r == Err::<PromiseAction, KatherineError>(e) && *final(self) == *old(self),
            },
    {
        let k = &self.kickstarters[kickstarter_id as usize];
        let deposit = k.get_deposit(&supporter_id)?;
        if requested_amount > deposit {
            return Err(KatherineError::NotAvailableAmount);
        }
        if deposit > u128::MAX - ONE_MILLI_NEAR {
            return Err(KatherineError::ArithmeticOverflow);
        }
        let amount_to_withdraw = if is_close(requested_amount, deposit) {
            deposit
        } else {
            requested_amount
        };
        if k.is_within_funding_period(now) && k.total_deposited < amount_to_withdraw {
            return Err(KatherineError::ArithmeticOverflow);
        }
        let receiver_id = convert_to_valid_account_id(supporter_id.clone())?;
        self.supporter_withdraw_before_freeze(amount_to_withdraw, deposit, kickstarter_id, &supporter_id, now);
        Ok(PromiseAction::FtTransfer {
            token_contract: self.metapool_contract_address.clone(),
            receiver_id,
            amount: amount_to_withdraw,
            memo: None,
            then: Callback::ReturnTokensBeforeFreeze { supporter_id, kickstarter_id, amount: amount_to_withdraw },
        })
    }

    /// Takes `requested_amount` from the supporter's `deposit`. The total
    /// deposited is changed only within the funding period, and a supporter
    /// who takes everything leaves the kickstarter: no rewards can be claimed.
    fn supporter_withdraw_before_freeze(
        &mut self,
        requested_amount: u128,
        deposit: u128,
        kickstarter_id: KickstarterId,
        supporter_id: &String,
        now: EpochMillis,
    )
        requires
            old(self).wf(),
            kickstarter_id < old(self).kickstarters@.len(),
            old(self)@.kickstarters[kickstarter_id as int].deposits.contains_key(supporter_id@),
            old(self)@.kickstarters[kickstarter_id as int].deposits[supporter_id@] == deposit,
            requested_amount <= deposit,
            old(self)@.kickstarters[kickstarter_id as int].spec_is_within_funding_period(now) ==> old(self)@.kickstarters[kickstarter_id as int].total_deposited
                >= requested_amount,
        ensures
            final(self).wf(),
            final(self)@ == old(self)@.apply_withdraw_before_freeze(requested_amount, deposit, kickstarter_id, supporter_id@, now),
    {
        let i = kickstarter_id as usize;
        let ghost old_view = self@;
        let within = self.kickstarters[i].is_within_funding_period(now);
        if deposit == requested_amount {
            self.kickstarters[i].deposits.remove(supporter_id);
        } else {
            self.kickstarters[i].deposits.insert(supporter_id.clone(), deposit - requested_amount);
        }
        if within {
            self.kickstarters[i].total_deposited = self.kickstarters[i].total_deposited - requested_amount;
        }
        let ghost mid = self@;
        proof {
            assert(mid =~= old_view.set_kickstarter(self.kickstarters@[i as int]@));
        }
        proof {
            self.lemma_slugs_wf_kept(old(self));
        }
        if deposit == requested_amount {
            self.drop_supported_project(supporter_id, kickstarter_id);
        }
    }

    /// Settles a withdrawal made before the freeze: on success an empty
    /// supporter record is removed; on failure the amount returns to the deposit.
    pub fn return_tokens_before_freeze_callback(
        &mut self,
        supporter_id: String,
        kickstarter_id: KickstarterIdJSON,
        amount: BalanceJSON,
        transfer_succeeded: bool,
    ) -> (r: Result<(), KatherineError>)
        requires
            old(self).wf(),
        ensures
            final(self).wf(),
            transfer_succeeded ==> r is Ok && final(self)@ == old(self)@.remove_if_empty(supporter_id@),
            !transfer_succeeded ==> match old(self)@.spec_restore_withdraw_before_freeze(amount, kickstarter_id, supporter_id@) {
                Ok(v) => r is Ok && final(self)@ == v,
                Err(e) => r == Err::<(), KatherineError>(e) && *final(self) == *old(self),
            },
    {
        if transfer_succeeded {
            self.remove_supporter_if_empty(&supporter_id);
            Ok(())
        } else {
            self.internal_restore_withdraw_before_freeze(amount, kickstarter_id, supporter_id)
        }
    }

    /// Puts a failed withdrawal back in the supporter's deposit.
    pub fn internal_restore_withdraw_before_freeze(
        &mut self,
        amount: u128,
        kickstarter_id: KickstarterId,
        supporter_id: String,
    ) -> (r: Result<(), KatherineError>)
        requires
            old(self).wf(),
        ensures
            final(self).wf(),
            match old(self)@.spec_restore_withdraw_before_freeze(amount, kickstarter_id, supporter_id@) {
                Ok(v) => r is Ok && final(self)@ == v,
                Err(e) => r == Err::<(), KatherineError>(e) && *final(self) == *old(self),
            },
    {
        let k = self.internal_get_kickstarter(kickstarter_id)?;
        let i = kickstarter_id as usize;
        let ghost old_view = self@;
        match k.deposits.get(&supporter_id) {
            None => {
                self.kickstarters[i].deposits.insert(supporter_id.clone(), amount);
                let ghost mid = self@;
                proof {
                    assert(mid =~= old_view.set_kickstarter(self.kickstarters@[i as int]@));
                }
                proof {
                    self.lemma_slugs_wf_kept(old(self));
                }
                self.add_supported_project(&supporter_id, kickstarter_id);
            },
            Some(balance) => {
                let balance = *balance;
                if balance > u128::MAX - amount {
                    return Err(KatherineError::ArithmeticOverflow);
                }
                self.kickstarters[i].deposits.insert(supporter_id.clone(), balance + amount);
                proof {
                    assert(self@ =~= old_view.set_kickstarter(self.kickstarters@[i as int]@));
                    self.lemma_slugs_wf_kept(old(self));
                }
            },
        }
        Ok(())
    }

    /// Whether a supporter who takes its last stNEAR after the unfreeze
    /// leaves the kickstarter: it does when no project tokens are owed to it.
    fn remove_from_supported_withdraw(&self, kickstarter_id: KickstarterId, supporter_id: &String) -> (r: Result<
        bool,
        KatherineError,
    >)
        requires
            self.wf(),
            kickstarter_id < self.kickstarters@.len(),
            self@.kickstarters[kickstarter_id as int].successful == Some(true),
        ensures
            ({
                let k = self@.kickstarters[kickstarter_id as int];
                r == match k.spec_supporter_rewards(supporter_id@, k.winner_goal().tokens_to_release_per_stnear) {
                    Err(e) => Err(e),
                    Ok(rewards) => Ok(rewards == 0),
                }
            }),
    {
        let k = &self.kickstarters[kickstarter_id as usize];
        let goal = k.get_winner_goal()?;
        let rewards = self.internal_get_supporter_rewards(supporter_id, k, goal.tokens_to_release_per_stnear)?;
        Ok(rewards == 0)
    }

    /// Adds `amount` to the supporter's stNEAR withdrawn after the unfreeze
    /// and, when `leave`, removes the kickstarter from its projects.
    fn supporter_withdraw_after_unfreeze(
        &mut self,
        amount: u128,
        leave: bool,
        kickstarter_id: KickstarterId,
        supporter_id: &String,
    )
        requires
            old(self).wf(),
            kickstarter_id < old(self).kickstarters@.len(),
            old(self)@.kickstarters[kickstarter_id as int].stnear_withdraw_of(supporter_id@) + amount <= u128::MAX,
        ensures
            final(self).wf(),
            ({
                let k = old(self)@.kickstarters[kickstarter_id as int];
                let base = old(self)@.set_kickstarter(
                    KickstarterView {
                        stnear_withdraw: k.stnear_withdraw.insert(
                            supporter_id@,
                            (k.stnear_withdraw_of(supporter_id@) + amount) as u128,
                        ),
                        ..k
                    },
                );
                final(self)@ == if leave { base.drop_project(supporter_id@, kickstarter_id) } else { base }
            }),
    {
        let i = kickstarter_id as usize;
        let entity = WithdrawEntity::Supporter(supporter_id.clone());
        let current_withdraw = self.kickstarters[i].get_stnear_withdraw(&entity);
        let ghost old_view = self@;
        self.kickstarters[i].stnear_withdraw.insert(supporter_id.clone(), current_withdraw + amount);
        let ghost mid = self@;
        proof {
            assert(mid =~= old_view.set_kickstarter(self.kickstarters@[i as int]@));
        }
        proof {
            self.lemma_slugs_wf_kept(old(self));
        }
        if leave {
            self.drop_supported_project(supporter_id, kickstarter_id);
        }
    }

    /// Withdraws stNEAR for `supporter_id` after the unfreeze and returns the
    /// transfer to make.
    pub fn internal_supporter_withdraw_after_unfreeze(
        &mut self,
        requested_amount: u128,
        kickstarter_id: KickstarterId,
        supporter_id: String,
    ) -> (r: Result<PromiseAction, KatherineError>)
        requires
            old(self).wf(),
            kickstarter_id < old(self).kickstarters@.len(),
            old(self)@.kickstarters[kickstarter_id as int].successful == Some(true),
        ensures
            final(self).wf(),
            match old(self)@.spec_withdraw_after_unfreeze(requested_amount, kickstarter_id, supporter_id@) {
                Ok((v, amount)) => final(self)@ == v && (r matches Ok(a) && a@ == (PromiseActionView::FtTransfer {
                    token_contract: old(self)@.metapool_contract_address,
                    receiver_id: account_receiver(supporter_id@),
                    amount,
                    memo: None,
                    then: CallbackView::ReturnTokensAfterUnfreeze { supporter_id: supporter_id@, kickstarter_id, amount },
                })),
                Err(e) => r == Err::<PromiseAction, KatherineError>(e) && *final(self) == *old(self),
            },
    {
        let i = kickstarter_id as usize;
        let k = &self.kickstarters[i];
        let after = k.get_after_unfreeze_deposits(&supporter_id)?;
        let entity = WithdrawEntity::Supporter(supporter_id.clone());
        let withdrawn = k.get_stnear_withdraw(&entity);
        if after < withdrawn {
            return Err(KatherineError::ArithmeticOverflow);
        }
        let available_to_withdraw = after - withdrawn;
        if !(available_to_withdraw > 0 && requested_amount <= available_to_withdraw) {
            return Err(KatherineError::NotAvailableAmount);
        }
        if available_to_withdraw > u128::MAX - ONE_MILLI_NEAR {
            return Err(KatherineError::ArithmeticOverflow);
        }
        let amount_to_withdraw = if is_close(requested_amount, available_to_withdraw) {
            available_to_withdraw
        } else {
            requested_amount
        };
        if withdrawn > u128::MAX - amount_to_withdraw {
            return Err(KatherineError::ArithmeticOverflow);
        }
        let mut leave = false;
        if available_to_withdraw == amount_to_withdraw {
            leave = self.remove_from_supported_withdraw(kickstarter_id, &supporter_id)?;
        }
        let receiver_id = convert_to_valid_account_id(supporter_id.clone())?;
        self.supporter_withdraw_after_unfreeze(amount_to_withdraw, leave, kickstarter_id, &supporter_id);
        Ok(PromiseAction::FtTransfer {
            token_contract: self.metapool_contract_address.clone(),
            receiver_id,
            amount: amount_to_withdraw,
            memo: None,
            then: Callback::ReturnTokensAfterUnfreeze { supporter_id, kickstarter_id, amount: amount_to_withdraw },
        })
    }

    /// Settles a withdrawal made after the unfreeze: on success an empty
    /// supporter record is removed; on failure the withdrawal is taken back.
    pub fn return_tokens_after_unfreeze_callback(
        &mut self,
        supporter_id: String,
        kickstarter_id: KickstarterIdJSON,
        amount: BalanceJSON,
        transfer_succeeded: bool,
    ) -> (r: Result<(), KatherineError>)
        requires
            old(self).wf(),
        ensures
            final(self).wf(),
            transfer_succeeded ==> r is Ok && final(self)@ == old(self)@.remove_if_empty(supporter_id@),
            !transfer_succeeded ==> match old(self)@.spec_restore_withdraw_after_unfreeze(amount, kickstarter_id, supporter_id@) {
                Ok(v) => r is Ok && final(self)@ == v,
                Err(e) => r == Err::<(), KatherineError>(e) && *final(self) == *old(self),
            },
    {
        if transfer_succeeded {
            self.remove_supporter_if_empty(&supporter_id);
            Ok(())
        } else {
            self.internal_restore_withdraw_after_unfreeze(amount, kickstarter_id, supporter_id)
        }
    }

    /// Takes back a failed withdrawal made after the unfreeze.
    pub fn internal_restore_withdraw_after_unfreeze(
        &mut self,
        amount: u128,
        kickstarter_id: KickstarterId,
        supporter_id: String,
    ) -> (r: Result<(), KatherineError>)
        requires
            old(self).wf(),
        ensures
            final(self).wf(),
            match old(self)@.spec_restore_withdraw_after_unfreeze(amount, kickstarter_id, supporter_id@) {
                Ok(v) => r is Ok && final(self)@ == v,
                Err(e) => r == Err::<(), KatherineError>(e) && *final(self) == *old(self),
            },
    {
        let k = self.internal_get_kickstarter(kickstarter_id)?;
        let i = kickstarter_id as usize;
        let deposit = k.get_after_unfreeze_deposits(&supporter_id)?;
        let entity = WithdrawEntity::Supporter(supporter_id.clone());
        let supporter_withdraw = k.get_stnear_withdraw(&entity);
        if supporter_withdraw < amount {
            return Err(KatherineError::ArithmeticOverflow);
        }
        let ghost old_view = self@;
        self.kickstarters[i].stnear_withdraw.insert(supporter_id.clone(), supporter_withdraw - amount);
        let ghost mid = self@;
        proof {
            assert(mid =~= old_view.set_kickstarter(self.kickstarters@[i as int]@));
        }
        proof {
            self.lemma_slugs_wf_kept(old(self));
        }
        if supporter_withdraw == deposit {
            self.add_supported_project(&supporter_id, kickstarter_id);
        }
        Ok(())
    }

    /// Withdraws `amount` stNEAR for the caller, before the freeze or after
    /// the unfreeze, and returns the transfer to make.
    pub fn withdraw(
        &mut self,
        amount: BalanceJSON,
        kickstarter_id: KickstarterIdJSON,
        predecessor_account_id: &String,
        now: EpochMillis,
        prepaid_gas: u64,
    ) -> (r: Result<PromiseAction, KatherineError>)
        requires
            old(self).wf(),
        ensures
            final(self).wf(),
            match old(self)@.spec_withdraw(amount, kickstarter_id, predecessor_account_id@, now, prepaid_gas) {
                Ok((v, sent, after)) => final(self)@ == v && (r matches Ok(a) && a@ == (PromiseActionView::FtTransfer {
                    token_contract: old(self)@.metapool_contract_address,
                    receiver_id: account_receiver(predecessor_account_id@),
                    amount: sent,
                    memo: None,
                    then: if after {
                        CallbackView::ReturnTokensAfterUnfreeze {
                            supporter_id: predecessor_account_id@,
                            kickstarter_id,
                            amount: sent,
                        }
                    } else {
                        CallbackView::ReturnTokensBeforeFreeze {
                            supporter_id: predecessor_account_id@,
                            kickstarter_id,
                            amount: sent,
                        }
                    },
                })),
                Err(e) => r == Err::<PromiseAction, KatherineError>(e) && *final(self) == *old(self),
            },
    {
        let min_prepaid_gas = GAS_FOR_FT_TRANSFER + GAS_FOR_RESOLVE_TRANSFER + FIVE_TGAS;
        if prepaid_gas <= min_prepaid_gas {
            return Err(KatherineError::NotEnoughGas { required: min_prepaid_gas });
        }
        let kickstarter = self.internal_get_kickstarter(kickstarter_id)?;
        if amount == 0 {
            return Err(KatherineError::ZeroAmount);
        }
        let supporter_id = predecessor_account_id.clone();
        match kickstarter.successful {
            Some(true) => {
                kickstarter.assert_funds_must_be_unfreezed(now)?;
                self.internal_supporter_withdraw_after_unfreeze(amount, kickstarter_id, supporter_id)
            },
            Some(false) => self.internal_supporter_withdraw_before_freeze(amount, kickstarter_id, supporter_id, now),
            None => {
                if now >= kickstarter.close_timestamp {
                    return Err(KatherineError::FundingPeriodOverMustEvaluate);
                }
                self.internal_supporter_withdraw_before_freeze(amount, kickstarter_id, supporter_id, now)
            },
        }
    }
}

impl KatherineView {
    /// The outcome of `caller` withdrawing all its stNEAR from kickstarter
    /// `id` at time `now`: from a successful kickstarter this waits for the
    /// unfreeze; then as `spec_withdraw` with all the stNEAR the caller holds.
    pub open spec fn spec_withdraw_all(self, id: KickstarterId, caller: Seq<char>, now: EpochMillis, prepaid_gas: u64) -> Result<
        (KatherineView, u128, bool),
        KatherineError,
    > {
        if !valid_account(caller) {
            Err(KatherineError::InvalidAccountId)
        } else {
            match self.kickstarter(id) {
                Err(e) => Err(e),
                Ok(k) => if k.successful == Some(true) && k.winner_goal_id is None {
                    Err(KatherineError::NoGoalDefined)
                } else if k.successful == Some(true) && !(k.winner_goal().unfreeze_timestamp < now) {
                    Err(KatherineError::FundsStillFrozen)
                } else if k.successful == Some(true) && k.stnear_price_at_unfreeze is None {
                    Err(KatherineError::PriceAtUnfreezeNotDefined)
                } else {
                    match self.spec_supporter_total_deposit(account_receiver(caller), id, None) {
                        Err(e) => Err(e),
                        Ok(amount) => self.spec_withdraw(amount, id, caller, now, prepaid_gas),
                    }
                },
            }
        }
    }
}

impl KatherineFundraising {
    /// Withdraws all the caller's stNEAR from the kickstarter, as `withdraw`
    /// with the whole balance; from a successful kickstarter only once the
    /// funds were unfrozen. Returns the transfer to make. For a valid caller
    /// id, whose characters stand for themselves in JSON, the outcome is
    /// exactly that of `withdraw` of the caller's whole deposit.
    pub fn withdraw_all(
        &mut self,
        kickstarter_id: KickstarterIdJSON,
        predecessor_account_id: &String,
        now: EpochMillis,
        prepaid_gas: u64,
    ) -> (r: Result<PromiseAction, KatherineError>)
        requires
            old(self).wf(),
        ensures
            final(self).wf(),
            match old(self)@.spec_withdraw_all(kickstarter_id, predecessor_account_id@, now, prepaid_gas) {
                Ok((v, sent, after)) => final(self)@ == v && (r matches Ok(a) && a@ == (PromiseActionView::FtTransfer {
                    token_contract: old(self)@.metapool_contract_address,
                    receiver_id: account_receiver(predecessor_account_id@),
                    amount: sent,
                    memo: None,
                    then: if after {
                        CallbackView::ReturnTokensAfterUnfreeze {
                            supporter_id: predecessor_account_id@,
                            kickstarter_id,
                            amount: sent,
                        }
                    } else {
                        CallbackView::ReturnTokensBeforeFreeze {
                            supporter_id: predecessor_account_id@,
                            kickstarter_id,
                            amount: sent,
                        }
                    },
                })),
                Err(e) => r == Err::<PromiseAction, KatherineError>(e) && *final(self) == *old(self),
            },
            ({
                let v = old(self)@;
                let caller = predecessor_account_id@;
                let k = v.kickstarters[kickstarter_id as int];
                &&& plain_json_chars(caller)
                &&& valid_account(caller)
                &&& kickstarter_id < v.kickstarters.len()
                &&& (k.successful == Some(true) ==> k.winner_goal().unfreeze_timestamp < now
                    && k.stnear_price_at_unfreeze is Some)
            }) ==> (old(self)@.spec_supporter_total_deposit(predecessor_account_id@, kickstarter_id, None) matches Ok(all)
                ==> old(self)@.spec_withdraw_all(kickstarter_id, predecessor_account_id@, now, prepaid_gas)
                == old(self)@.spec_withdraw(all, kickstarter_id, predecessor_account_id@, now, prepaid_gas)),
    {
        let supporter_id = convert_to_valid_account_id(predecessor_account_id.clone())?;
        proof {
            let v = old(self)@;
            let caller = predecessor_account_id@;
            if plain_json_chars(caller) && kickstarter_id < v.kickstarters.len() {
                assert(account_receiver(caller) == caller);
                old(self).lemma_wf_valid();
                if valid_account(caller) && (v.kickstarters[kickstarter_id as int].successful == Some(true)
                    ==> v.kickstarters[kickstarter_id as int].winner_goal().unfreeze_timestamp < now
                    && v.kickstarters[kickstarter_id as int].stnear_price_at_unfreeze is Some) {
                    law_withdraw_all_is_withdraw(v, kickstarter_id, caller, now, prepaid_gas);
                }
            }
        }
        let kickstarter = self.internal_get_kickstarter(kickstarter_id)?;
        if kickstarter.successful == Some(true) {
            kickstarter.assert_funds_must_be_unfreezed(now)?;
        }
        let amount = self.get_supporter_total_deposit_in_kickstarter(&supporter_id, kickstarter_id, None)?;
        self.withdraw(amount, kickstarter_id, predecessor_account_id, now, prepaid_gas)
    }
}

} // verus!
