//! The evaluation of kickstarters once their funding period is over, and the
//! unfreezing of the funds of the successful ones.

use vstd::prelude::*;

use crate::actions::{Callback, PromiseAction};
use crate::collections::seq_swap_remove_value;
use crate::constants::{BASIS_POINTS, NEAR};
use crate::contract::{KatherineFundraising, KatherineView};
use crate::errors::KatherineError;
use crate::kickstarter::{
    best_achieved_index, spec_any_achieved, KickstarterView,
};
use crate::types::{EpochMillis, GoalIdJSON, KickstarterId, KickstarterIdJSON, KickstarterStatusJSON};
use crate::utils::{json_u128, parse_json_u128, spec_proportional_result};

verus! {

/// The ids of the kickstarters at positions `from..to` that satisfy `pred`, in order.
pub open spec fn ids_in_range(ks: Seq<KickstarterView>, from: int, to: int, pred: spec_fn(KickstarterView) -> bool) -> Seq<u32>
    decreases to - from,
{
    if to <= from {
        Seq::empty()
    } else {
        let rest = ids_in_range(ks, from, to - 1, pred);
        if pred(ks[to - 1]) {
            rest.push(ks[to - 1].id)
        } else {
            rest
        }
    }
}

/// Active, past its funding period, and with a goal met.
pub open spec fn ready_successful(now: EpochMillis) -> spec_fn(KickstarterView) -> bool {
    |k: KickstarterView| k.active && k.close_timestamp <= now && spec_any_achieved(k.goals, k.total_deposited)
}

/// Active, past its funding period, and with no goal met.
pub open spec fn ready_unsuccessful(now: EpochMillis) -> spec_fn(KickstarterView) -> bool {
    |k: KickstarterView| k.active && k.close_timestamp <= now && !spec_any_achieved(k.goals, k.total_deposited)
}

/// Successful, not yet unfrozen, and past the winning goal's freezing period.
pub open spec fn ready_to_unfreeze(now: EpochMillis) -> spec_fn(KickstarterView) -> bool {
    |k: KickstarterView| k.successful == Some(true) && k.stnear_price_at_unfreeze is None
        && k.winner_goal().unfreeze_timestamp < now
}

/// The end of a page of `limit` items starting at `from` in a list of `len`.
pub open spec fn page_end(from: int, limit: int, len: int) -> int {
    if from + limit < len { from + limit } else { len }
}

impl KatherineView {
    /// The outcome of evaluating kickstarter `id` at time `now`: the state and,
    /// when a goal was met, the goal to activate once the stNEAR price is known.
    pub open spec fn spec_process_kickstarter(self, id: KickstarterId, now: EpochMillis) -> Result<
        (KatherineView, Option<GoalIdJSON>),
        KatherineError,
    > {
        match self.kickstarter(id) {
            Err(e) => Err(e),
            Ok(k) => if k.successful is Some {
                Err(KatherineError::AlreadyActivated)
            } else if k.close_timestamp > now {
                Err(KatherineError::FundingPeriodNotOver)
            } else {
                let b = best_achieved_index(k.goals, k.total_deposited, k.goals.len() as int);
                if b != -1 {
                    Ok((self, Some(k.goals[b].id)))
                } else {
                    Ok(
                        (
                            KatherineView {
                                active_projects: seq_swap_remove_value(self.active_projects, id),
                                ..self.set_kickstarter(
                                    KickstarterView { active: false, successful: Some(false), ..k },
                                )
                            },
                            None,
                        ),
                    )
                }
            },
        }
    }

    /// The outcome of activating kickstarter `id` with goal `goal_id` once the
    /// staking pool answered `st_near_price` (`None` when it failed).
    pub open spec fn spec_activate_successful_kickstarter_after(
        self,
        id: KickstarterId,
        goal_id: GoalIdJSON,
        st_near_price: Option<u128>,
    ) -> Result<KatherineView, KatherineError> {
        match st_near_price {
            None => Err(KatherineError::MetaPoolNotAvailable),
            Some(price) => match self.kickstarter(id) {
                Err(e) => Err(e),
                Ok(k) => if goal_id >= k.goals.len() {
                    Err(KatherineError::NoAchievedGoal)
                } else {
                    match spec_proportional_result(
                        k.total_deposited,
                        k.goals[goal_id as int].tokens_to_release_per_stnear,
                        NEAR,
                    ) {
                        Err(e) => Err(e),
                        Ok(total) => match spec_proportional_result(
                            self.katherine_fee_percent as u128,
                            total,
                            BASIS_POINTS,
                        ) {
                            Err(e) => Err(e),
                            Ok(fee) => if total + fee > u128::MAX {
                                Err(KatherineError::ArithmeticOverflow)
                            } else if k.available_reward_tokens < total + fee {
                                Err(KatherineError::NotEnoughRewardTokens)
                            } else {
                                Ok(
                                    KatherineView {
                                        active_projects: seq_swap_remove_value(self.active_projects, id),
                                        ..self.set_kickstarter(
                                            KickstarterView {
                                                winner_goal_id: Some(goal_id),
                                                active: false,
                                                successful: Some(true),
                                                katherine_fee: Some(fee),
                                                total_tokens_to_release: Some(total),
                                                stnear_price_at_freeze: Some(price),
                                                ..k
                                            },
                                        )
                                    },
                                )
                            },
                        },
                    }
                },
            },
        }
    }
}

impl KatherineFundraising {
    /// The kickstarters at positions `from_index..from_index + limit` that
    /// wait for evaluation, split by whether a goal was met; `None` when
    /// `from_index` is past the last kickstarter.
    pub fn get_kickstarters_to_process(
        &self,
        from_index: KickstarterIdJSON,
        limit: KickstarterIdJSON,
        now: EpochMillis,
    ) -> (r: Option<KickstarterStatusJSON>)
        requires
            self.wf(),
        ensures
            match r {
                None => from_index >= self.kickstarters@.len(),
                Some(st) => {
                    let end = page_end(from_index as int, limit as int, self.kickstarters@.len() as int);
                    &&& from_index < self.kickstarters@.len()
                    &&& st.successful@ == ids_in_range(self@.kickstarters, from_index as int, end, ready_successful(now))
                    &&& st.unsuccessful@ == ids_in_range(self@.kickstarters, from_index as int, end, ready_unsuccessful(now))
                },
            },
    {
        let kickstarters_len = self.kickstarters.len() as u64;
        let start: u64 = from_index as u64;
        if start >= kickstarters_len {
            return None;
        }
        let end: u64 = if start + (limit as u64) < kickstarters_len {
            start + limit as u64
        } else {
            kickstarters_len
        };
        let mut successful: Vec<KickstarterIdJSON> = Vec::new();
        let mut unsuccessful: Vec<KickstarterIdJSON> = Vec::new();
        let mut index: u64 = start;
        while index < end
            invariant
                self.wf(),
                kickstarters_len == self.kickstarters@.len(),
                start <= index <= end <= kickstarters_len,
                successful@ == ids_in_range(self@.kickstarters, start as int, index as int, ready_successful(now)),
                unsuccessful@ == ids_in_range(self@.kickstarters, start as int, index as int, ready_unsuccessful(now)),
            decreases end - index,
        {
            let kickstarter = &self.kickstarters[index as usize];
            if kickstarter.active && kickstarter.close_timestamp <= now {
                if kickstarter.any_achieved_goal() {
                    successful.push(kickstarter.id);
                } else {
                    unsuccessful.push(kickstarter.id);
                }
            }
            index = index + 1;
        }
        Some(KickstarterStatusJSON { successful, unsuccessful })
    }

    /// Evaluates a kickstarter whose funding period is over. When no goal was
    /// met it becomes inactive and unsuccessful; otherwise the returned call
    /// fetches the stNEAR price and then activates the met goal with the
    /// largest desired amount.
    pub fn process_kickstarter(&mut self, kickstarter_id: KickstarterIdJSON, now: EpochMillis) -> (r: Result<
        Option<PromiseAction>,
        KatherineError,
    >)
        requires
            old(self).wf(),
        ensures
            final(self).wf(),
            match old(self)@.spec_process_kickstarter(kickstarter_id, now) {
                Ok((v, goal)) => final(self)@ == v && match goal {
                    Some(g) => r == Ok::<Option<PromiseAction>, KatherineError>(
                        Some(PromiseAction::GetStNearPrice {
                            metapool: old(self).metapool_contract_address,
                            then: Callback::ActivateSuccessfulKickstarterAfter { kickstarter_id, goal_id: g },
                        }),
                    ),
                    None => r == Ok::<Option<PromiseAction>, KatherineError>(None),
                },
                Err(e) => r == Err::<Option<PromiseAction>, KatherineError>(e) && *final(self) == *old(self),
            },
    {
        let kickstarter = self.internal_get_kickstarter(kickstarter_id)?;
        if kickstarter.successful.is_some() {
            return Err(KatherineError::AlreadyActivated);
        }
        if kickstarter.close_timestamp > now {
            return Err(KatherineError::FundingPeriodNotOver);
        }
        match kickstarter.get_achieved_goal() {
            Some(goal) => {
                let action = self.activate_successful_kickstarter(kickstarter_id, goal.id);
                Ok(Some(action))
            },
            None => {
                let ghost old_view = self@;
                let km = &mut self.kickstarters[kickstarter_id as usize];
                km.active = false;
                km.successful = Some(false);
                let ghost mid = self@;
                proof {
                    assert(mid =~= old_view.set_kickstarter(self.kickstarters@[kickstarter_id as int]@));
                }
                self.active_projects.remove(kickstarter_id);
                proof {
                    assert(self@ =~= KatherineView {
                        active_projects: seq_swap_remove_value(old_view.active_projects, kickstarter_id),
                        ..mid
                    });
                    crate::collections::lemma_swap_remove_value_subset(old(self).active_projects@, kickstarter_id);
                }
                Ok(None)
            },
        }
    }

    /// The call that fetches the stNEAR price and then activates kickstarter
    /// `kickstarter_id` with goal `goal_id`.
    pub fn activate_successful_kickstarter(&self, kickstarter_id: KickstarterIdJSON, goal_id: GoalIdJSON) -> (r:
        PromiseAction)
        ensures
            r == (PromiseAction::GetStNearPrice {
                metapool: self.metapool_contract_address,
                then: Callback::ActivateSuccessfulKickstarterAfter { kickstarter_id, goal_id },
            }),
    {
        PromiseAction::GetStNearPrice {
            metapool: self.metapool_contract_address.clone(),
            then: Callback::ActivateSuccessfulKickstarterAfter { kickstarter_id, goal_id },
        }
    }

    /// Continues `process_kickstarter` with the staking pool's reply, the
    /// bytes of a JSON decimal string (`None` when the query failed): the
    /// stNEAR price it holds goes to `activate_successful_kickstarter_at_price`.
    pub fn activate_successful_kickstarter_after(
        &mut self,
        kickstarter_id: KickstarterIdJSON,
        goal_id: GoalIdJSON,
        price_result: Option<Vec<u8>>,
    ) -> (r: Result<(), KatherineError>)
        requires
            old(self).wf(),
        ensures
            final(self).wf(),
            match old(self)@.spec_activate_successful_kickstarter_after(
                kickstarter_id,
                goal_id,
                match price_result {
                    Some(b) => json_u128(b@),
                    None => None,
                },
            ) {
                Ok(v) => r is Ok && final(self)@ == v,
                Err(e) => r == Err::<(), KatherineError>(e) && *final(self) == *old(self),
            },
    {
        let st_near_price = match price_result {
            Some(bytes) => parse_json_u128(bytes.as_slice()),
            None => None,
        };
        self.activate_successful_kickstarter_at_price(kickstarter_id, goal_id, st_near_price)
    }

    /// Activates kickstarter `kickstarter_id` with goal `goal_id` at the stNEAR
    /// price `st_near_price` (`None` when the staking pool gave none). The
    /// kickstarter succeeds when its reward tokens cover the tokens owed to
    /// supporters plus Katherine's fee.
    pub fn activate_successful_kickstarter_at_price(
        &mut self,
        kickstarter_id: KickstarterIdJSON,
        goal_id: GoalIdJSON,
        st_near_price: Option<u128>,
    ) -> (r: Result<(), KatherineError>)
        requires
            old(self).wf(),
        ensures
            final(self).wf(),
            match old(self)@.spec_activate_successful_kickstarter_after(kickstarter_id, goal_id, st_near_price) {
                Ok(v) => r is Ok && final(self)@ == v,
                Err(e) => r == Err::<(), KatherineError>(e) && *final(self) == *old(self),
            },
    {
        let st_near_price = match st_near_price {
            Some(p) => p,
            None => return Err(KatherineError::MetaPoolNotAvailable),
        };
        let kickstarter = self.internal_get_kickstarter(kickstarter_id)?;
        if goal_id as usize >= kickstarter.goals.len() {
            return Err(KatherineError::NoAchievedGoal);
        }
        let goal = &kickstarter.goals[goal_id as usize];
        let total_tokens_to_release = self.calculate_total_tokens_to_release(
            kickstarter,
            goal.tokens_to_release_per_stnear,
        )?;
        let katherine_fee = self.calculate_katherine_fee(total_tokens_to_release)?;
        if total_tokens_to_release > u128::MAX - katherine_fee {
            return Err(KatherineError::ArithmeticOverflow);
        }
        if kickstarter.available_reward_tokens < total_tokens_to_release + katherine_fee {
            return Err(KatherineError::NotEnoughRewardTokens);
        }
        let ghost old_view = self@;
        let km = &mut self.kickstarters[kickstarter_id as usize];
        km.winner_goal_id = Some(goal_id);
        km.active = false;
        km.successful = Some(true);
        km.katherine_fee = Some(katherine_fee);
        km.total_tokens_to_release = Some(total_tokens_to_release);
        km.stnear_price_at_freeze = Some(st_near_price);
        let ghost mid = self@;
        proof {
            assert(mid =~= old_view.set_kickstarter(self.kickstarters@[kickstarter_id as int]@));
        }
        self.active_projects.remove(kickstarter_id);
        proof {
            assert(self@ =~= KatherineView {
                active_projects: seq_swap_remove_value(old_view.active_projects, kickstarter_id),
                ..mid
            });
            crate::collections::lemma_swap_remove_value_subset(old(self).active_projects@, kickstarter_id);
        }
        Ok(())
    }

    /// The successful kickstarters at positions `from_index..from_index + limit`
    /// whose funds may be unfrozen now; `None` when `from_index` is past the
    /// last kickstarter.
    pub fn get_kickstarters_to_unfreeze(
        &self,
        from_index: KickstarterIdJSON,
        limit: KickstarterIdJSON,
        now: EpochMillis,
    ) -> (r: Option<Vec<KickstarterIdJSON>>)
        requires
            self.wf(),
        ensures
            match r {
                None => from_index >= self.kickstarters@.len(),
                Some(ids) => from_index < self.kickstarters@.len() && ids@ == ids_in_range(
                    self@.kickstarters,
                    from_index as int,
                    page_end(from_index as int, limit as int, self.kickstarters@.len() as int),
                    ready_to_unfreeze(now),
                ),
            },
    {
        let kickstarters_len = self.kickstarters.len() as u64;
        let start: u64 = from_index as u64;
        if start >= kickstarters_len {
            return None;
        }
        let end: u64 = if start + (limit as u64) < kickstarters_len {
            start + limit as u64
        } else {
            kickstarters_len
        };
        let mut result: Vec<KickstarterIdJSON> = Vec::new();
        let mut index: u64 = start;
        while index < end
            invariant
                self.wf(),
                kickstarters_len == self.kickstarters@.len(),
                start <= index <= end <= kickstarters_len,
                result@ == ids_in_range(self@.kickstarters, start as int, index as int, ready_to_unfreeze(now)),
            decreases end - index,
        {
            let kickstarter = &self.kickstarters[index as usize];
            if kickstarter.successful == Some(true) && kickstarter.stnear_price_at_unfreeze.is_none() {
                let can = kickstarter.funds_can_be_unfreezed(now);
                if let Ok(true) = can {
                    result.push(kickstarter.id);
                }
            }
            index = index + 1;
        }
        Some(result)
    }

    /// For a successful kickstarter whose funds are not unfrozen yet, the call
    /// that fetches the stNEAR price to record as the price at unfreeze;
    /// refused while the winning goal's freezing period lasts.
    pub fn unfreeze_kickstarter_funds(&self, kickstarter_id: KickstarterIdJSON, now: EpochMillis) -> (r: Result<
        Option<PromiseAction>,
        KatherineError,
    >)
        requires
            self.wf(),
        ensures
            match self@.kickstarter(kickstarter_id) {
                Err(e) => r == Err::<Option<PromiseAction>, KatherineError>(e),
                Ok(k) => if k.successful == Some(true) && k.stnear_price_at_unfreeze is None {
                    if k.winner_goal().unfreeze_timestamp < now {
                        r == Ok::<Option<PromiseAction>, KatherineError>(
                            Some(PromiseAction::GetStNearPrice {
                                metapool: self.metapool_contract_address,
                                then: Callback::SetStnearPriceAtUnfreeze { kickstarter_id },
                            }),
                        )
                    } else {
                        r == Err::<Option<PromiseAction>, KatherineError>(KatherineError::FundsStillFrozen)
                    }
                } else {
                    r == Ok::<Option<PromiseAction>, KatherineError>(None)
                },
            },
    {
        let kickstarter = self.internal_get_kickstarter(kickstarter_id)?;
        if kickstarter.successful == Some(true) && kickstarter.stnear_price_at_unfreeze.is_none() {
            kickstarter.assert_funds_can_be_unfreezed(now)?;
            Ok(Some(self.internal_unfreeze_kickstarter_funds(kickstarter_id)))
        } else {
            Ok(None)
        }
    }

    /// The call that fetches the stNEAR price and records it as the price at
    /// unfreeze of kickstarter `kickstarter_id`.
    pub fn internal_unfreeze_kickstarter_funds(&self, kickstarter_id: KickstarterId) -> (r: PromiseAction)
        ensures
            r == (PromiseAction::GetStNearPrice {
                metapool: self.metapool_contract_address,
                then: Callback::SetStnearPriceAtUnfreeze { kickstarter_id },
            }),
    {
        PromiseAction::GetStNearPrice {
            metapool: self.metapool_contract_address.clone(),
            then: Callback::SetStnearPriceAtUnfreeze { kickstarter_id },
        }
    }

    /// Records the staking pool's reply, the bytes of a JSON decimal string
    /// (`None` when the query failed), as the price at unfreeze.
    pub fn set_stnear_price_at_unfreeze(&mut self, kickstarter_id: KickstarterIdJSON, price_result: Option<Vec<u8>>) -> (r:
        Result<(), KatherineError>)
        requires
            old(self).wf(),
        ensures
            final(self).wf(),
            match (match price_result {
                Some(b) => json_u128(b@),
                None => None,
            }) {
                None => r == Err::<(), KatherineError>(KatherineError::MetaPoolNotAvailable) && *final(self) == *old(self),
                Some(price) => match old(self)@.kickstarter(kickstarter_id) {
                    Err(e) => r == Err::<(), KatherineError>(e) && *final(self) == *old(self),
                    Ok(k) => r is Ok && final(self)@ == old(self)@.set_kickstarter(
                        KickstarterView { stnear_price_at_unfreeze: Some(price), ..k },
                    ),
                },
            },
    {
        let st_near_price = match price_result {
            Some(bytes) => parse_json_u128(bytes.as_slice()),
            None => None,
        };
        self.set_stnear_price_at_unfreeze_to(kickstarter_id, st_near_price)
    }

    /// Records `st_near_price` as the price at unfreeze (`None` when the
    /// staking pool gave no price).
    pub fn set_stnear_price_at_unfreeze_to(&mut self, kickstarter_id: KickstarterIdJSON, st_near_price: Option<u128>) -> (r:
        Result<(), KatherineError>)
        requires
            old(self).wf(),
        ensures
            final(self).wf(),
            match st_near_price {
                None => r == Err::<(), KatherineError>(KatherineError::MetaPoolNotAvailable) && *final(self) == *old(self),
                Some(price) => match old(self)@.kickstarter(kickstarter_id) {
                    Err(e) => r == Err::<(), KatherineError>(e) && *final(self) == *old(self),
                    Ok(k) => r is Ok && final(self)@ == old(self)@.set_kickstarter(
                        KickstarterView { stnear_price_at_unfreeze: Some(price), ..k },
                    ),
                },
            },
    {
        let st_near_price = match st_near_price {
            Some(p) => p,
            None => return Err(KatherineError::MetaPoolNotAvailable),
        };
        let _ = self.internal_get_kickstarter(kickstarter_id)?;
        let ghost old_view = self@;
        self.kickstarters[kickstarter_id as usize].stnear_price_at_unfreeze = Some(st_near_price);
        proof {
            assert(self@ =~= old_view.set_kickstarter(self.kickstarters@[kickstarter_id as int]@));
        }
        Ok(())
    }
}

} // verus!
