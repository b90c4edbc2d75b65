//! The project's share of a successful kickstarter: the stNEAR interest that
//! the supporters' frozen deposits earn while the stNEAR price rises.

use vstd::prelude::*;

use crate::actions::{Callback, CallbackView, PromiseAction, PromiseActionView};
use crate::contract::{KatherineFundraising, KatherineView};
use crate::errors::KatherineError;
use crate::kickstarter::{Kickstarter, KickstarterView};
use crate::types::{BalanceJSON, EpochMillis, KickstarterId, KickstarterIdJSON};
use crate::utils::{account_receiver, convert_to_valid_account_id, proportional_result, spec_proportional_result};
use crate::withdraw::valid_account;

verus! {

impl KickstarterView {
    /// The stNEAR interest that the total deposit earned when the stNEAR
    /// price went from `price_at_freeze` to `price_at_unfreeze`: what is left
    /// once the supporters get stNEAR worth their deposit in NEAR.
    pub open spec fn spec_interest(self, price_at_freeze: u128, price_at_unfreeze: u128) -> Result<u128, KatherineError> {
        match spec_proportional_result(self.total_deposited, price_at_freeze, price_at_unfreeze) {
            Err(e) => Err(e),
            Ok(kept) => if kept > self.total_deposited {
                Err(KatherineError::ArithmeticOverflow)
            } else {
                Ok((self.total_deposited - kept) as u128)
            },
        }
    }
}

impl KatherineView {
    /// The outcome of the project taking all its stNEAR interest not yet
    /// withdrawn from kickstarter `id`, at the stNEAR price
    /// `price_at_unfreeze`, to `receiver`: the state and the amount sent.
    pub open spec fn spec_kickstarter_withdraw(self, id: KickstarterId, price_at_unfreeze: u128, receiver: Seq<char>) -> Result<
        (KatherineView, u128),
        KatherineError,
    > {
        match self.kickstarter(id) {
            Err(e) => Err(e),
            Ok(k) => match k.stnear_price_at_freeze {
                None => Err(KatherineError::PriceAtFreezeNotDefined),
                Some(price_at_freeze) => if !(price_at_unfreeze > price_at_freeze) {
                    Err(KatherineError::PriceNotUpdated)
                } else {
                    match k.spec_interest(price_at_freeze, price_at_unfreeze) {
                        Err(e) => Err(e),
                        Ok(interest) => if interest < k.kickstarter_withdraw {
                            Err(KatherineError::ArithmeticOverflow)
                        } else if interest == k.kickstarter_withdraw {
                            Err(KatherineError::AmountExceedsBalance)
                        } else if !valid_account(receiver) {
                            Err(KatherineError::InvalidAccountId)
                        } else {
                            Ok(
                                (
                                    self.set_kickstarter(KickstarterView { kickstarter_withdraw: interest, ..k }),
                                    (interest - k.kickstarter_withdraw) as u128,
                                ),
                            )
                        },
                    }
                },
            },
        }
    }

    /// Checks of an interest withdrawal by `caller` from kickstarter `id` at
    /// time `now`: it succeeded, `caller` owns it, and, while its funds are
    /// frozen, their freezing period is not over.
    pub open spec fn spec_interest_withdrawal_allowed(self, id: KickstarterId, caller: Seq<char>, now: EpochMillis) -> Result<
        (),
        KatherineError,
    > {
        match self.kickstarter(id) {
            Err(e) => Err(e),
            Ok(k) => if caller != k.owner_id {
                Err(KatherineError::OnlyAdmin)
            } else if k.successful != Some(true) {
                Err(KatherineError::KickstarterIsUnsuccessful)
            } else if k.stnear_price_at_unfreeze is None && k.winner_goal().unfreeze_timestamp < now {
                Err(KatherineError::UnfreezeBeforeInterestWithdraw)
            } else {
                Ok(())
            },
        }
    }

    /// Takes back `amount` from the project's withdrawn interest after a
    /// failed transfer; refused unless `amount` is all of it.
    pub open spec fn spec_restore_kickstarter_withdraw(self, amount: u128, id: KickstarterId) -> Result<
        KatherineView,
        KatherineError,
    > {
        match self.kickstarter(id) {
            Err(e) => Err(e),
            Ok(k) => if k.kickstarter_withdraw > amount {
                Err(KatherineError::WithdrawnAmountHigherThanExpected)
            } else if k.kickstarter_withdraw < amount {
                Err(KatherineError::ArithmeticOverflow)
            } else {
                Ok(self.set_kickstarter(KickstarterView { kickstarter_withdraw: 0, ..k }))
            },
        }
    }
}

impl Kickstarter {
    /// The stNEAR interest earned by the total deposit between the two prices.
    pub fn calculate_interest(&self, price_at_freeze: u128, price_at_unfreeze: u128) -> (r: Result<u128, KatherineError>)
        ensures
            r == self@.spec_interest(price_at_freeze, price_at_unfreeze),
    {
        let kept = proportional_result(self.total_deposited, price_at_freeze, price_at_unfreeze)?;
        if kept > self.total_deposited {
            return Err(KatherineError::ArithmeticOverflow);
        }
        Ok(self.total_deposited - kept)
    }
}

impl KatherineFundraising {
    /// Records that the project took all its interest not yet withdrawn, at
    /// the stNEAR price `price_at_unfreeze`, and returns the transfer of it
    /// to `receiver_id`.
    pub fn kickstarter_withdraw(
        &mut self,
        kickstarter_id: KickstarterId,
        price_at_unfreeze: u128,
        receiver_id: String,
    ) -> (r: Result<PromiseAction, KatherineError>)
        requires
            old(self).wf(),
        ensures
            final(self).wf(),
            match old(self)@.spec_kickstarter_withdraw(kickstarter_id, price_at_unfreeze, receiver_id@) {
                Ok((v, amount)) => final(self)@ == v && (r matches Ok(a) && a@ == (PromiseActionView::FtTransferCall {
                    token_contract: old(self)@.metapool_contract_address,
                    receiver_id: account_receiver(receiver_id@),
                    amount,
                    memo: None,
                    msg: "kickstarter stnear withdraw"@,
                    then: CallbackView::KickstarterWithdrawResolveTransfer { kickstarter_id, amount },
                })),
                Err(e) => r == Err::<PromiseAction, KatherineError>(e) && *final(self) == *old(self),
            },
    {
        let kickstarter = self.internal_get_kickstarter(kickstarter_id)?;
        let price_at_freeze = match kickstarter.stnear_price_at_freeze {
            Some(p) => p,
            None => return Err(KatherineError::PriceAtFreezeNotDefined),
        };
        if !(price_at_unfreeze > price_at_freeze) {
            return Err(KatherineError::PriceNotUpdated);
        }
        let interest = kickstarter.calculate_interest(price_at_freeze, price_at_unfreeze)?;
        if interest < kickstarter.kickstarter_withdraw {
            return Err(KatherineError::ArithmeticOverflow);
        }
        let amount = interest - kickstarter.kickstarter_withdraw;
        if amount == 0 {
            return Err(KatherineError::AmountExceedsBalance);
        }
        let receiver_id = convert_to_valid_account_id(receiver_id)?;
        let i = kickstarter_id as usize;
        let ghost old_view = self@;
        self.kickstarters[i].kickstarter_withdraw = interest;
        proof {
            assert(self@ =~= old_view.set_kickstarter(self.kickstarters@[i as int]@));
        }
        Ok(PromiseAction::FtTransferCall {
            token_contract: self.metapool_contract_address.clone(),
            receiver_id,
            amount,
            memo: None,
            msg: String::from_str("kickstarter stnear withdraw"),
            then: Callback::KickstarterWithdrawResolveTransfer { kickstarter_id, amount },
        })
    }

    /// While the funds are frozen, the call that fetches the current stNEAR
    /// price to compute the interest with; refused once the freezing period
    /// is over, as the funds must be unfrozen first.
    pub fn kickstarter_withdraw_before_unfreeze(
        &self,
        kickstarter_id: KickstarterIdJSON,
        receiver_id: String,
        now: EpochMillis,
    ) -> (r: Result<PromiseAction, KatherineError>)
        requires
            self.wf(),
        ensures
            match self@.kickstarter(kickstarter_id) {
                Err(e) => r == Err::<PromiseAction, KatherineError>(e),
                Ok(k) => if k.winner_goal_id is None {
                    r == Err::<PromiseAction, KatherineError>(KatherineError::NoGoalDefined)
                } else if k.winner_goal().unfreeze_timestamp < now {
                    r == Err::<PromiseAction, KatherineError>(KatherineError::UnfreezeBeforeInterestWithdraw)
                } else {
                    r matches Ok(a) && a@ == (PromiseActionView::GetStNearPrice {
                        metapool: self@.metapool_contract_address,
                        then: CallbackView::KickstarterWithdrawCallback { kickstarter_id, receiver_id: receiver_id@ },
                    })
                },
            },
    {
        let kickstarter = self.internal_get_kickstarter(kickstarter_id)?;
        if kickstarter.funds_can_be_unfreezed(now)? {
            return Err(KatherineError::UnfreezeBeforeInterestWithdraw);
        }
        Ok(PromiseAction::GetStNearPrice {
            metapool: self.metapool_contract_address.clone(),
            then: Callback::KickstarterWithdrawCallback { kickstarter_id, receiver_id },
        })
    }

    /// The owner of a successful kickstarter takes its stNEAR interest: at
    /// the price at unfreeze when known, else through a query of the current
    /// price.
    pub fn withdraw_stnear_interest(
        &mut self,
        kickstarter_id: KickstarterIdJSON,
        predecessor_account_id: &String,
        now: EpochMillis,
    ) -> (r: Result<PromiseAction, KatherineError>)
        requires
            old(self).wf(),
        ensures
            final(self).wf(),
            match old(self)@.spec_interest_withdrawal_allowed(kickstarter_id, predecessor_account_id@, now) {
                Err(e) => r == Err::<PromiseAction, KatherineError>(e) && *final(self) == *old(self),
                Ok(()) => match old(self)@.kickstarters[kickstarter_id as int].stnear_price_at_unfreeze {
                    None => *final(self) == *old(self) && (r matches Ok(a) && a@ == (PromiseActionView::GetStNearPrice {
                        metapool: old(self)@.metapool_contract_address,
                        then: CallbackView::KickstarterWithdrawCallback {
                            kickstarter_id,
                            receiver_id: predecessor_account_id@,
                        },
                    })),
                    Some(price) => match old(self)@.spec_kickstarter_withdraw(kickstarter_id, price, predecessor_account_id@) {
                        Ok((v, amount)) => final(self)@ == v && (r matches Ok(a) && a@ == (PromiseActionView::FtTransferCall {
                            token_contract: old(self)@.metapool_contract_address,
                            receiver_id: account_receiver(predecessor_account_id@),
                            amount,
                            memo: None,
                            msg: "kickstarter stnear withdraw"@,
                            then: CallbackView::KickstarterWithdrawResolveTransfer { kickstarter_id, amount },
                        })),
                        Err(e) => r == Err::<PromiseAction, KatherineError>(e) && *final(self) == *old(self),
                    },
                },
            },
    {
        let kickstarter = self.internal_get_kickstarter(kickstarter_id)?;
        kickstarter.assert_kickstarter_owner(predecessor_account_id)?;
        if kickstarter.successful != Some(true) {
            return Err(KatherineError::KickstarterIsUnsuccessful);
        }
        let receiver_id = predecessor_account_id.clone();
        match kickstarter.stnear_price_at_unfreeze {
            Some(st_near_price) => self.kickstarter_withdraw(kickstarter_id, st_near_price, receiver_id),
            None => self.kickstarter_withdraw_before_unfreeze(kickstarter_id, receiver_id, now),
        }
    }

    /// Continues an interest withdrawal with the stNEAR price that the
    /// staking pool reported (`None` when the query failed).
    pub fn kickstarter_withdraw_callback(
        &mut self,
        kickstarter_id: KickstarterIdJSON,
        receiver_id: String,
        st_near_price: Option<u128>,
    ) -> (r: Result<PromiseAction, KatherineError>)
        requires
            old(self).wf(),
        ensures
            final(self).wf(),
            match st_near_price {
                None => r == Err::<PromiseAction, KatherineError>(KatherineError::MetaPoolNotAvailable)
                    && *final(self) == *old(self),
                Some(price) => match old(self)@.spec_kickstarter_withdraw(kickstarter_id, price, receiver_id@) {
                    Ok((v, amount)) => final(self)@ == v && (r matches Ok(a) && a@ == (PromiseActionView::FtTransferCall {
                        token_contract: old(self)@.metapool_contract_address,
                        receiver_id: account_receiver(receiver_id@),
                        amount,
                        memo: None,
                        msg: "kickstarter stnear withdraw"@,
                        then: CallbackView::KickstarterWithdrawResolveTransfer { kickstarter_id, amount },
                    })),
                    Err(e) => r == Err::<PromiseAction, KatherineError>(e) && *final(self) == *old(self),
                },
            },
    {
        match st_near_price {
            None => Err(KatherineError::MetaPoolNotAvailable),
            Some(price) => self.kickstarter_withdraw(kickstarter_id, price, receiver_id),
        }
    }

    /// Settles the transfer of the project's interest; on failure the
    /// withdrawal is taken back.
    pub fn kickstarter_withdraw_resolve_transfer(
        &mut self,
        kickstarter_id: KickstarterIdJSON,
        amount: BalanceJSON,
        transfer_succeeded: bool,
    ) -> (r: Result<(), KatherineError>)
        requires
            old(self).wf(),
        ensures
            final(self).wf(),
            transfer_succeeded ==> r is Ok && *final(self) == *old(self),
            !transfer_succeeded ==> match old(self)@.spec_restore_kickstarter_withdraw(amount, kickstarter_id) {
                Ok(v) => r is Ok && final(self)@ == v,
                Err(e) => r == Err::<(), KatherineError>(e) && *final(self) == *old(self),
            },
    {
        if transfer_succeeded {
            Ok(())
        } else {
            self.internal_restore_kickstarter_withdraw(amount, kickstarter_id)
        }
    }

    /// Takes back the project's failed interest withdrawal of `amount`.
    pub fn internal_restore_kickstarter_withdraw(&mut self, amount: u128, kickstarter_id: KickstarterId) -> (r: Result<
        (),
        KatherineError,
    >)
        requires
            old(self).wf(),
        ensures
            final(self).wf(),
            match old(self)@.spec_restore_kickstarter_withdraw(amount, kickstarter_id) {
                Ok(v) => r is Ok && final(self)@ == v,
                Err(e) => r == Err::<(), KatherineError>(e) && *final(self) == *old(self),
            },
    {
        let kickstarter = self.internal_get_kickstarter(kickstarter_id)?;
        if kickstarter.kickstarter_withdraw > amount {
            return Err(KatherineError::WithdrawnAmountHigherThanExpected);
        }
        if kickstarter.kickstarter_withdraw < amount {
            return Err(KatherineError::ArithmeticOverflow);
        }
        let i = kickstarter_id as usize;
        let ghost old_view = self@;
        self.kickstarters[i].kickstarter_withdraw = self.kickstarters[i].kickstarter_withdraw - amount;
        proof {
            assert(self@ =~= old_view.set_kickstarter(self.kickstarters@[i as int]@));
        }
        Ok(())
    }
}

} // verus!
