//! A fundraising project and the bookkeeping of its supporters' deposits.

use vstd::prelude::*;

use crate::collections::{seq_insert_value, AccountMap};
use crate::constants::{WithdrawEntity, BASIS_POINTS, NEAR};
use crate::errors::KatherineError;
use crate::goal::Goal;
use crate::types::{
    BasisPoints, EpochMillis, GoalId, GoalJSON, KickstarterDetailsJSON, KickstarterId,
    KickstarterJSON,
};
use crate::utils::{proportional_result, spec_linear_release, spec_proportional_result};

verus! {

pub struct Kickstarter {
    /// Unique id: the kickstarter's index in the contract
    pub id: KickstarterId,
    pub name: String,
    pub slug: String,
    pub goals: Vec<Goal>,
    pub owner_id: String,
    pub winner_goal_id: Option<u8>,
    /// Katherine's fee, in project tokens, set when the kickstarter succeeds
    pub katherine_fee: Option<u128>,
    /// Project tokens owed to the supporters, set when the kickstarter succeeds
    pub total_tokens_to_release: Option<u128>,
    /// stNEAR deposited by each supporter
    pub deposits: AccountMap<u128>,
    /// Project tokens already claimed by each supporter
    pub withdraw: AccountMap<u128>,
    /// stNEAR withdrawn by each supporter after the funds were unfrozen
    pub stnear_withdraw: AccountMap<u128>,
    /// Total stNEAR deposited. It moves only during the funding period and
    /// keeps the raised amount afterwards.
    pub total_deposited: u128,
    /// Supporters cannot deposit more than this in total
    pub deposits_hard_cap: u128,
    pub max_tokens_to_release_per_stnear: u128,
    /// The project has deposited enough tokens to back the largest rewards
    pub enough_reward_tokens: bool,
    /// The project is waiting for funding or evaluation
    pub active: bool,
    /// Whether the project met one of its goals, once evaluated
    pub successful: Option<bool>,
    /// stNEAR price (in yoctoNEAR) when the funds were frozen and unfrozen
    pub stnear_price_at_freeze: Option<u128>,
    pub stnear_price_at_unfreeze: Option<u128>,
    pub creation_timestamp: EpochMillis,
    /// Start of the funding period
    pub open_timestamp: EpochMillis,
    /// End of the funding period
    pub close_timestamp: EpochMillis,
    /// The contract of the project token
    pub token_contract_address: String,
    /// Project tokens deposited by the project and not yet paid out
    pub available_reward_tokens: u128,
    pub locked_reward_tokens: u128,
    /// stNEAR interest already withdrawn by the project
    pub kickstarter_withdraw: u128,
}

#[verifier::ext_equal]
pub struct KickstarterView {
    pub id: KickstarterId,
    pub name: Seq<char>,
    pub slug: Seq<char>,
    pub goals: Seq<Goal>,
    pub owner_id: Seq<char>,
    pub winner_goal_id: Option<u8>,
    pub katherine_fee: Option<u128>,
    pub total_tokens_to_release: Option<u128>,
    pub deposits: Map<Seq<char>, u128>,
    /// The supporters with a deposit, in the order in which they are listed
    pub deposit_order: Seq<Seq<char>>,
    pub withdraw: Map<Seq<char>, u128>,
    pub stnear_withdraw: Map<Seq<char>, u128>,
    pub total_deposited: u128,
    pub deposits_hard_cap: u128,
    pub max_tokens_to_release_per_stnear: u128,
    pub enough_reward_tokens: bool,
    pub active: bool,
    pub successful: Option<bool>,
    pub stnear_price_at_freeze: Option<u128>,
    pub stnear_price_at_unfreeze: Option<u128>,
    pub creation_timestamp: EpochMillis,
    pub open_timestamp: EpochMillis,
    pub close_timestamp: EpochMillis,
    pub token_contract_address: Seq<char>,
    pub available_reward_tokens: u128,
    pub locked_reward_tokens: u128,
    pub kickstarter_withdraw: u128,
}

impl View for Kickstarter {
    type V = KickstarterView;

    open spec fn view(&self) -> KickstarterView {
        KickstarterView {
            id: self.id,
            name: self.name@,
            slug: self.slug@,
            goals: self.goals@,
            owner_id: self.owner_id@,
            winner_goal_id: self.winner_goal_id,
            katherine_fee: self.katherine_fee,
            total_tokens_to_release: self.total_tokens_to_release,
            deposits: self.deposits@,
            deposit_order: self.deposits.key_seq(),
            withdraw: self.withdraw@,
            stnear_withdraw: self.stnear_withdraw@,
            total_deposited: self.total_deposited,
            deposits_hard_cap: self.deposits_hard_cap,
            max_tokens_to_release_per_stnear: self.max_tokens_to_release_per_stnear,
            enough_reward_tokens: self.enough_reward_tokens,
            active: self.active,
            successful: self.successful,
            stnear_price_at_freeze: self.stnear_price_at_freeze,
            stnear_price_at_unfreeze: self.stnear_price_at_unfreeze,
            creation_timestamp: self.creation_timestamp,
            open_timestamp: self.open_timestamp,
            close_timestamp: self.close_timestamp,
            token_contract_address: self.token_contract_address@,
            available_reward_tokens: self.available_reward_tokens,
            locked_reward_tokens: self.locked_reward_tokens,
            kickstarter_withdraw: self.kickstarter_withdraw,
        }
    }
}

/// Goal ids are their positions, and later goals ask for at least as much
/// stNEAR, freeze it no longer and release at least as many tokens.
pub open spec fn goals_wf(goals: Seq<Goal>) -> bool {
    &&& goals.len() <= 255
    &&& forall|i: int| 0 <= i < goals.len() ==> (#[trigger] goals[i]).id == i
    &&& forall|i: int, j: int|
        0 <= i <= j < goals.len() ==> {
            &&& (#[trigger] goals[i]).desired_amount <= (#[trigger] goals[j]).desired_amount
            &&& goals[i].unfreeze_timestamp >= goals[j].unfreeze_timestamp
            &&& goals[i].tokens_to_release_per_stnear <= goals[j].tokens_to_release_per_stnear
        }
}

/// Among the first `n` goals that `total` reaches, the index of the one with
/// the largest desired amount (the later one on a tie), or -1 when none.
pub open spec fn best_achieved_index(goals: Seq<Goal>, total: u128, n: int) -> int
    decreases n,
{
    if n <= 0 {
        -1
    } else {
        let b = best_achieved_index(goals, total, n - 1);
        if goals[n - 1].desired_amount <= total && (b == -1 || goals[n - 1].desired_amount
            >= goals[b].desired_amount) {
            n - 1
        } else {
            b
        }
    }
}

/// Some goal's desired amount is reached by `total`.
pub open spec fn spec_any_achieved(goals: Seq<Goal>, total: u128) -> bool {
    exists|i: int| 0 <= i < goals.len() && (#[trigger] goals[i]).desired_amount <= total
}

pub proof fn lemma_best_achieved(goals: Seq<Goal>, total: u128, n: int)
    requires
        0 <= n <= goals.len(),
    ensures
        -1 <= best_achieved_index(goals, total, n) < n,
        best_achieved_index(goals, total, n) == -1 <==> !(exists|i: int|
            0 <= i < n && (#[trigger] goals[i]).desired_amount <= total),
        best_achieved_index(goals, total, n) != -1 ==> {
            let b = best_achieved_index(goals, total, n);
            &&& goals[b].desired_amount <= total
            &&& forall|i: int|
                0 <= i < n && (#[trigger] goals[i]).desired_amount <= total
                    ==> goals[i].desired_amount <= goals[b].desired_amount
            &&& forall|i: int|
                b < i < n && (#[trigger] goals[i]).desired_amount <= total
                    ==> goals[i].desired_amount < goals[b].desired_amount
        },
    decreases n,
{
    if n > 0 {
        lemma_best_achieved(goals, total, n - 1);
        let b = best_achieved_index(goals, total, n - 1);
        if b == -1 && goals[n - 1].desired_amount <= total {
            assert(goals[n - 1].desired_amount <= total);
        }
    }
}

/// With goals ordered by desired amount, the achieved goal is the last one
/// whose desired amount `total` reaches.
pub proof fn lemma_best_achieved_is_last(goals: Seq<Goal>, total: u128)
    requires
        goals_wf(goals),
        spec_any_achieved(goals, total),
    ensures
        ({
            let b = best_achieved_index(goals, total, goals.len() as int);
            &&& 0 <= b < goals.len()
            &&& goals[b].desired_amount <= total
            &&& forall|i: int| b < i < goals.len() ==> (#[trigger] goals[i]).desired_amount > total
        }),
{
    lemma_best_achieved(goals, total, goals.len() as int);
    let b = best_achieved_index(goals, total, goals.len() as int);
    assert forall|i: int| b < i < goals.len() implies (#[trigger] goals[i]).desired_amount
        > total by {
        if goals[i].desired_amount <= total {
            assert(goals[b].desired_amount <= goals[i].desired_amount);
        }
    }
}

impl KickstarterView {
    /// A winning goal exists, among the goals, exactly when the kickstarter
    /// succeeded; a successful kickstarter has its fee, its tokens to release
    /// and its price at freeze; an active one is not evaluated yet; the order
    /// of the supporters holds exactly those with a deposit.
    pub open spec fn valid(self) -> bool {
        &&& (self.winner_goal_id matches Some(w) ==> w < self.goals.len())
        &&& (self.successful == Some(true) <==> self.winner_goal_id is Some)
        &&& (self.successful == Some(true) ==> {
            &&& self.katherine_fee is Some
            &&& self.total_tokens_to_release is Some
            &&& self.stnear_price_at_freeze is Some
        })
        &&& (self.active ==> self.successful is None)
        &&& forall|a: Seq<char>| #[trigger] self.deposit_order.contains(a) <==> self.deposits.contains_key(a)
    }

    /// The summary of the kickstarter shown in lists.
    pub open spec fn spec_json(self) -> KickstarterJSON {
        KickstarterJSON {
            id: self.id,
            total_supporters: self.deposits.len() as u32,
            total_deposited: self.total_deposited,
            open_timestamp: self.open_timestamp,
            close_timestamp: self.close_timestamp,
        }
    }

    /// The goal chosen when the kickstarter succeeded.
    pub open spec fn winner_goal(self) -> Goal {
        self.goals[self.winner_goal_id.unwrap() as int]
    }

    pub open spec fn spec_is_within_funding_period(self, now: EpochMillis) -> bool {
        now < self.close_timestamp && now >= self.open_timestamp
    }

    /// The deposit of `supporter`, 0 when absent.
    pub open spec fn deposit_of(self, supporter: Seq<char>) -> u128 {
        if self.deposits.contains_key(supporter) {
            self.deposits[supporter]
        } else {
            0
        }
    }

    /// Project tokens already claimed by `supporter`, 0 when absent.
    pub open spec fn withdraw_of(self, supporter: Seq<char>) -> u128 {
        if self.withdraw.contains_key(supporter) {
            self.withdraw[supporter]
        } else {
            0
        }
    }

    /// stNEAR withdrawn after the unfreeze by `supporter`, 0 when absent.
    pub open spec fn stnear_withdraw_of(self, supporter: Seq<char>) -> u128 {
        if self.stnear_withdraw.contains_key(supporter) {
            self.stnear_withdraw[supporter]
        } else {
            0
        }
    }
}

impl KickstarterView {
    /// stNEAR owed to a supporter once the funds are unfrozen: the deposit
    /// converted at the price at freeze and back at the price at unfreeze, so
    /// that its value in NEAR is kept.
    pub open spec fn spec_after_unfreeze_deposits(self, supporter: Seq<char>) -> Result<u128, KatherineError> {
        if !self.deposits.contains_key(supporter) {
            Err(KatherineError::SupporterNotInKickstarter)
        } else if self.stnear_price_at_freeze is None {
            Err(KatherineError::PriceAtFreezeNotDefined)
        } else if self.stnear_price_at_unfreeze is None {
            Err(KatherineError::PriceAtUnfreezeNotDefined)
        } else {
            spec_proportional_result(
                self.deposits[supporter],
                self.stnear_price_at_freeze.unwrap(),
                self.stnear_price_at_unfreeze.unwrap(),
            )
        }
    }

    /// The value in NEAR of a supporter's deposit at the price at freeze, 0
    /// while that price is unknown.
    pub open spec fn spec_at_freeze_deposits_in_near(self, supporter: Seq<char>) -> Result<u128, KatherineError> {
        if !self.deposits.contains_key(supporter) {
            Err(KatherineError::SupporterNotInKickstarter)
        } else {
            match self.stnear_price_at_freeze {
                Some(p) => spec_proportional_result(self.deposits[supporter], p, NEAR),
                None => Ok(0),
            }
        }
    }

    /// Project tokens that a supporter's deposit earns at
    /// `tokens_to_release_per_stnear`, minus those already claimed.
    pub open spec fn spec_supporter_rewards(self, supporter: Seq<char>, tokens_to_release_per_stnear: u128) -> Result<
        u128,
        KatherineError,
    > {
        if !self.deposits.contains_key(supporter) {
            Err(KatherineError::SupporterNotInKickstarter)
        } else {
            match spec_proportional_result(self.deposits[supporter], tokens_to_release_per_stnear, NEAR) {
                Err(e) => Err(e),
                Ok(p) => if p >= self.withdraw_of(supporter) {
                    Ok((p - self.withdraw_of(supporter)) as u128)
                } else {
                    Err(KatherineError::ArithmeticOverflow)
                },
            }
        }
    }

    /// Project tokens a supporter may claim at time `now`: the part of the
    /// deposit's rewards released linearly between the winning goal's cliff
    /// and end, minus those already claimed (never below 0).
    pub open spec fn spec_available_rewards(self, supporter: Seq<char>, now: EpochMillis) -> Result<u128, KatherineError> {
        if self.winner_goal_id is None {
            Err(KatherineError::NoGoalDefined)
        } else if !self.deposits.contains_key(supporter) {
            Err(KatherineError::SupporterNotInKickstarter)
        } else {
            let goal = self.winner_goal();
            match spec_proportional_result(self.deposits[supporter], goal.tokens_to_release_per_stnear, NEAR) {
                Err(e) => Err(e),
                Ok(total) => {
                    let released = spec_linear_release(total, goal.cliff_timestamp, goal.end_timestamp, now);
                    if released >= self.withdraw_of(supporter) {
                        Ok((released - self.withdraw_of(supporter)) as u128)
                    } else {
                        Ok(0)
                    }
                },
            }
        }
    }

    /// Project tokens that the total deposited earns under the winning goal.
    pub open spec fn spec_tokens_to_release(self) -> Result<u128, KatherineError> {
        if self.winner_goal_id is None {
            Err(KatherineError::NoGoalDefined)
        } else {
            spec_proportional_result(
                self.total_deposited,
                self.winner_goal().tokens_to_release_per_stnear,
                NEAR,
            )
        }
    }

    /// Tokens to release minus Katherine's fee.
    pub open spec fn spec_total_rewards_for_supporters(self) -> Result<u128, KatherineError> {
        match self.spec_tokens_to_release() {
            Err(e) => Err(e),
            Ok(t) => match self.katherine_fee {
                None => Err(KatherineError::KatherineFeeNotDenominated),
                Some(f) => if t >= f {
                    Ok((t - f) as u128)
                } else {
                    Err(KatherineError::ArithmeticOverflow)
                },
            },
        }
    }
}

impl Kickstarter {
    /// The collections are consistent, the goals are ordered, a winning goal
    /// exists exactly when the kickstarter succeeded, and an active
    /// kickstarter is not evaluated yet.
    pub open spec fn wf(&self) -> bool {
        &&& self.deposits.wf()
        &&& self.withdraw.wf()
        &&& self.stnear_withdraw.wf()
        &&& goals_wf(self.goals@)
        &&& (self.winner_goal_id matches Some(w) ==> w < self.goals@.len())
        &&& (self.successful == Some(true) <==> self.winner_goal_id is Some)
        &&& (self.successful == Some(true) ==> {
            &&& self.katherine_fee is Some
            &&& self.total_tokens_to_release is Some
            &&& self.stnear_price_at_freeze is Some
        })
        &&& (self.active ==> self.successful is None)
    }

    /// Whether the goals are numbered by position, at most 255, and ordered.
    pub fn check_goals(&self) -> (r: bool)
        ensures
            r ==> goals_wf(self.goals@),
    {
        let n = self.goals.len();
        if n > 255 {
            return false;
        }
        let mut i: usize = 0;
        while i < n
            invariant
                n == self.goals@.len(),
                n <= 255,
                i <= n,
                forall|a: int| 0 <= a < i ==> (#[trigger] self.goals@[a]).id == a,
                forall|a: int, b: int|
                    0 <= a <= b < i ==> {
                        &&& (#[trigger] self.goals@[a]).desired_amount <= (#[trigger] self.goals@[b]).desired_amount
                        &&& self.goals@[a].unfreeze_timestamp >= self.goals@[b].unfreeze_timestamp
                        &&& self.goals@[a].tokens_to_release_per_stnear <= self.goals@[b].tokens_to_release_per_stnear
                    },
            decreases n - i,
        {
            let g = &self.goals[i];
            if g.id as usize != i {
                return false;
            }
            if i > 0 {
                let p = &self.goals[i - 1];
                if !(p.desired_amount <= g.desired_amount && p.unfreeze_timestamp >= g.unfreeze_timestamp
                    && p.tokens_to_release_per_stnear <= g.tokens_to_release_per_stnear) {
                    return false;
                }
            }
            proof {
                assert forall|a: int, b: int| 0 <= a <= b < i + 1 implies {
                    &&& (#[trigger] self.goals@[a]).desired_amount <= (#[trigger] self.goals@[b]).desired_amount
                    &&& self.goals@[a].unfreeze_timestamp >= self.goals@[b].unfreeze_timestamp
                    &&& self.goals@[a].tokens_to_release_per_stnear <= self.goals@[b].tokens_to_release_per_stnear
                } by {
                    if b == i && a < b {
                        let c = i - 1;
                        assert(self.goals@[a].desired_amount <= self.goals@[c].desired_amount);
                    }
                }
            }
            i = i + 1;
        }
        true
    }

    /// Whether the kickstarter is well formed.
    pub fn check_wf(&self) -> (r: bool)
        ensures
            r ==> self.wf(),
    {
        let winner_ok = match self.winner_goal_id {
            Some(w) => (w as usize) < self.goals.len(),
            None => true,
        };
        let success = match self.successful {
            Some(b) => b,
            None => false,
        };
        let success_ok = if success {
            self.winner_goal_id.is_some() && self.katherine_fee.is_some() && self.total_tokens_to_release.is_some()
                && self.stnear_price_at_freeze.is_some()
        } else {
            self.winner_goal_id.is_none()
        };
        let active_ok = !self.active || self.successful.is_none();
        winner_ok && success_ok && active_ok && self.deposits.check_wf() && self.withdraw.check_wf()
            && self.stnear_withdraw.check_wf() && self.check_goals()
    }

    pub fn assert_goal_status(&self) -> (r: Result<(), KatherineError>)
        ensures
            r is Ok <==> self.winner_goal_id is None,
            r matches Err(e) ==> e == KatherineError::AlreadyHasWinningGoal,
    {
        if self.winner_goal_id.is_none() {
            Ok(())
        } else {
            Err(KatherineError::AlreadyHasWinningGoal)
        }
    }

    /// Only the kickstarter's owner may proceed.
    pub fn assert_kickstarter_owner(&self, predecessor_account_id: &String) -> (r: Result<
        (),
        KatherineError,
    >)
        ensures
            r is Ok <==> predecessor_account_id@ == self.owner_id@,
            r matches Err(e) ==> e == KatherineError::OnlyAdmin,
    {
        if *predecessor_account_id == self.owner_id {
            Ok(())
        } else {
            Err(KatherineError::OnlyAdmin)
        }
    }

    pub fn assert_before_funding_period(&self, now: EpochMillis) -> (r: Result<(), KatherineError>)
        ensures
            r is Ok <==> now < self.open_timestamp,
            r matches Err(e) ==> e == KatherineError::ActionAfterFundingPeriodOpen,
    {
        if now < self.open_timestamp {
            Ok(())
        } else {
            Err(KatherineError::ActionAfterFundingPeriodOpen)
        }
    }

    /// Another goal may be added while there are no more than `max_number`.
    pub fn assert_number_of_goals(&self, max_number: u8) -> (r: Result<(), KatherineError>)
        requires
            self.goals@.len() <= 255,
        ensures
            r is Ok <==> max_number >= self.goals@.len(),
            r matches Err(e) ==> e == KatherineError::TooManyGoals,
    {
        if max_number >= self.get_number_of_goals() {
            Ok(())
        } else {
            Err(KatherineError::TooManyGoals)
        }
    }

    pub fn is_within_funding_period(&self, now: EpochMillis) -> (r: bool)
        ensures
            r == self@.spec_is_within_funding_period(now),
    {
        now < self.close_timestamp && now >= self.open_timestamp
    }

    /// The winning goal's freezing period is over.
    pub fn funds_can_be_unfreezed(&self, now: EpochMillis) -> (r: Result<bool, KatherineError>)
        requires
            self.wf(),
        ensures
            match r {
                Ok(b) => self.winner_goal_id is Some && b == (self@.winner_goal().unfreeze_timestamp
                    < now),
                Err(e) => self.winner_goal_id is None && e == KatherineError::NoGoalDefined,
            },
    {
        let goal = self.get_winner_goal()?;
        Ok(goal.unfreeze_timestamp < now)
    }

    pub fn assert_funds_can_be_unfreezed(&self, now: EpochMillis) -> (r: Result<(), KatherineError>)
        requires
            self.wf(),
        ensures
            r is Ok <==> self.winner_goal_id is Some && self@.winner_goal().unfreeze_timestamp < now,
            r matches Err(e) ==> (self.winner_goal_id is None && e == KatherineError::NoGoalDefined)
                || (self.winner_goal_id is Some && e == KatherineError::FundsStillFrozen),
    {
        if self.funds_can_be_unfreezed(now)? {
            Ok(())
        } else {
            Err(KatherineError::FundsStillFrozen)
        }
    }

    /// The funds may be unfrozen and the price at unfreeze is known.
    pub fn assert_funds_must_be_unfreezed(&self, now: EpochMillis) -> (r: Result<(), KatherineError>)
        requires
            self.wf(),
        ensures
            r is Ok <==> self.winner_goal_id is Some && self@.winner_goal().unfreeze_timestamp < now
                && self.stnear_price_at_unfreeze is Some,
            r matches Err(e) ==> (self.winner_goal_id is None && e == KatherineError::NoGoalDefined)
                || (self.winner_goal_id is Some && self@.winner_goal().unfreeze_timestamp >= now
                && e == KatherineError::FundsStillFrozen) || (self.winner_goal_id is Some
                && self@.winner_goal().unfreeze_timestamp < now && e
                == KatherineError::PriceAtUnfreezeNotDefined),
    {
        self.assert_funds_can_be_unfreezed(now)?;
        if self.stnear_price_at_unfreeze.is_some() {
            Ok(())
        } else {
            Err(KatherineError::PriceAtUnfreezeNotDefined)
        }
    }

    /// The funding period opens now or later and does not close before it opens.
    pub fn assert_timestamps(&self, now: EpochMillis) -> (r: Result<(), KatherineError>)
        ensures
            r is Ok <==> self.open_timestamp >= now && self.close_timestamp >= self.open_timestamp,
            r matches Err(e) ==> (self.open_timestamp < now && e
                == KatherineError::IncorrectOpenTimestamp) || (self.open_timestamp >= now
                && self.close_timestamp < self.open_timestamp && e
                == KatherineError::IncorrectCloseTimestamp),
    {
        if self.open_timestamp < now {
            return Err(KatherineError::IncorrectOpenTimestamp);
        }
        if self.close_timestamp < self.open_timestamp {
            return Err(KatherineError::IncorrectCloseTimestamp);
        }
        Ok(())
    }

    pub fn assert_within_funding_period(&self, now: EpochMillis) -> (r: Result<(), KatherineError>)
        ensures
            r is Ok <==> self@.spec_is_within_funding_period(now),
            r matches Err(e) ==> e == KatherineError::NotWithinFundingPeriod,
    {
        if self.is_within_funding_period(now) {
            Ok(())
        } else {
            Err(KatherineError::NotWithinFundingPeriod)
        }
    }

    pub fn assert_enough_reward_tokens(&self) -> (r: Result<(), KatherineError>)
        ensures
            r is Ok <==> self.enough_reward_tokens,
            r matches Err(e) ==> e == KatherineError::NotEnoughRewardTokensToSupport,
    {
        if self.enough_reward_tokens {
            Ok(())
        } else {
            Err(KatherineError::NotEnoughRewardTokensToSupport)
        }
    }

    /// The number of supporters with a deposit.
    pub fn get_total_supporters(&self) -> (r: u32)
        requires
            self.wf(),
        ensures
            r == self@.deposits.len() as u32,
            self@.deposits.dom().finite(),
    {
        self.deposits.len() as u32
    }

    pub fn get_deposit(&self, supporter_id: &String) -> (r: Result<u128, KatherineError>)
        requires
            self.wf(),
        ensures
            match r {
                Ok(v) => self@.deposits.contains_key(supporter_id@) && v
                    == self@.deposits[supporter_id@],
                Err(e) => !self@.deposits.contains_key(supporter_id@) && e
                    == KatherineError::SupporterNotInKickstarter,
            },
    {
        match self.deposits.get(supporter_id) {
            Some(v) => Ok(*v),
            None => Err(KatherineError::SupporterNotInKickstarter),
        }
    }

    /// Project tokens already claimed by the supporter.
    pub fn get_withdraw(&self, supporter_id: &String) -> (r: u128)
        requires
            self.wf(),
        ensures
            r == self@.withdraw_of(supporter_id@),
    {
        match self.withdraw.get(supporter_id) {
            Some(amount) => *amount,
            None => 0,
        }
    }

    /// stNEAR already withdrawn after the unfreeze by the kickstarter or by a supporter.
    pub fn get_stnear_withdraw(&self, entity: &WithdrawEntity) -> (r: u128)
        requires
            self.wf(),
        ensures
            r == match entity {
                WithdrawEntity::Kickstarter => self.kickstarter_withdraw,
                WithdrawEntity::Supporter(s) => self@.stnear_withdraw_of(s@),
            },
    {
        match entity {
            WithdrawEntity::Kickstarter => self.kickstarter_withdraw,
            WithdrawEntity::Supporter(s) => match self.stnear_withdraw.get(s) {
                Some(amount) => *amount,
                None => 0,
            },
        }
    }

    /// The stNEAR price at unfreeze is known.
    pub fn is_unfreeze(&self) -> (r: bool)
        ensures
            r == (self.stnear_price_at_unfreeze is Some),
    {
        self.stnear_price_at_unfreeze.is_some()
    }

    /// The goal with the largest desired amount that the total deposited
    /// reaches (the later one on a tie), if any.
    pub fn get_achieved_goal(&self) -> (r: Option<Goal>)
        requires
            self.wf(),
        ensures
            ({
                let b = best_achieved_index(self.goals@, self.total_deposited, self.goals@.len() as int);
                match r {
                    Some(g) => b != -1 && g == self.goals@[b],
                    None => b == -1,
                }
            }),
    {
        let mut best: Option<usize> = None;
        let mut i: usize = 0;
        while i < self.goals.len()
            invariant
                i <= self.goals@.len(),
                ({
                    let b = best_achieved_index(self.goals@, self.total_deposited, i as int);
                    match best {
                        Some(j) => b == j,
                        None => b == -1,
                    }
                }),
            decreases self.goals@.len() - i,
        {
            proof {
                lemma_best_achieved(self.goals@, self.total_deposited, i as int);
            }
            if self.goals[i].desired_amount <= self.total_deposited {
                match best {
                    Some(j) => {
                        if self.goals[i].desired_amount >= self.goals[j].desired_amount {
                            best = Some(i);
                        }
                    },
                    None => {
                        best = Some(i);
                    },
                }
            }
            i = i + 1;
        }
        proof {
            lemma_best_achieved(self.goals@, self.total_deposited, self.goals@.len() as int);
        }
        match best {
            Some(j) => Some(self.goals[j].clone()),
            None => None,
        }
    }

    /// Some goal's desired amount is reached by the total deposited.
    pub fn any_achieved_goal(&self) -> (r: bool)
        ensures
            r == spec_any_achieved(self.goals@, self.total_deposited),
    {
        let mut i: usize = 0;
        while i < self.goals.len()
            invariant
                i <= self.goals@.len(),
                forall|j: int| 0 <= j < i ==> self.goals@[j].desired_amount > self.total_deposited,
            decreases self.goals@.len() - i,
        {
            if self.goals[i].desired_amount <= self.total_deposited {
                assert(self.goals@[i as int].desired_amount <= self.total_deposited);
                return true;
            }
            i = i + 1;
        }
        false
    }

    pub fn get_winner_goal(&self) -> (r: Result<Goal, KatherineError>)
        requires
            self.wf(),
        ensures
            match r {
                Ok(g) => self.winner_goal_id is Some && g == self@.winner_goal(),
                Err(e) => self.winner_goal_id is None && e == KatherineError::NoGoalDefined,
            },
    {
        match self.winner_goal_id {
            Some(id) => Ok(self.goals[id as usize].clone()),
            None => Err(KatherineError::NoGoalDefined),
        }
    }

    pub fn get_goal_by_id(&self, goal_id: GoalId) -> (r: Result<Goal, KatherineError>)
        ensures
            match r {
                Ok(g) => goal_id < self.goals@.len() && g == self.goals@[goal_id as int],
                Err(e) => goal_id >= self.goals@.len() && e == KatherineError::GoalNotFound,
            },
    {
        if (goal_id as usize) < self.goals.len() {
            Ok(self.goals[goal_id as usize].clone())
        } else {
            Err(KatherineError::GoalNotFound)
        }
    }

    /// Adds `amount` to the supporter's deposit (a missing deposit counts as 0).
    pub fn update_supporter_deposits(&mut self, supporter_id: &String, amount: u128) -> (r: Result<
        (),
        KatherineError,
    >)
        requires
            old(self).wf(),
        ensures
            final(self).wf(),
            r is Err <==> old(self)@.deposit_of(supporter_id@) + amount > u128::MAX,
            r is Err ==> *final(self) == *old(self) && r == Err::<(), _>(
                KatherineError::ArithmeticOverflow,
            ),
            r is Ok ==> final(self)@ == (KickstarterView {
                deposits: old(self)@.deposits.insert(
                    supporter_id@,
                    (old(self)@.deposit_of(supporter_id@) + amount) as u128,
                ),
                deposit_order: seq_insert_value(old(self)@.deposit_order, supporter_id@),
                ..old(self)@
            }),
    {
        let current_supporter_deposit = match self.deposits.get(supporter_id) {
            Some(total) => *total,
            None => 0,
        };
        if current_supporter_deposit > u128::MAX - amount {
            return Err(KatherineError::ArithmeticOverflow);
        }
        let new_total: u128 = current_supporter_deposit + amount;
        self.deposits.insert(supporter_id.clone(), new_total);
        Ok(())
    }

    /// stNEAR the supporter may take back once the funds are unfrozen.
    pub fn get_after_unfreeze_deposits(&self, supporter_id: &String) -> (r: Result<u128, KatherineError>)
        requires
            self.wf(),
        ensures
            r == self@.spec_after_unfreeze_deposits(supporter_id@),
    {
        let deposit = self.get_deposit(supporter_id)?;
        let price_at_freeze = match self.stnear_price_at_freeze {
            Some(p) => p,
            None => return Err(KatherineError::PriceAtFreezeNotDefined),
        };
        let price_at_unfreeze = match self.stnear_price_at_unfreeze {
            Some(p) => p,
            None => return Err(KatherineError::PriceAtUnfreezeNotDefined),
        };
        proportional_result(deposit, price_at_freeze, price_at_unfreeze)
    }

    /// The supporter's deposit valued in NEAR at the price at freeze.
    pub fn get_at_freeze_deposits_in_near(&self, supporter_id: &String) -> (r: Result<u128, KatherineError>)
        requires
            self.wf(),
        ensures
            r == self@.spec_at_freeze_deposits_in_near(supporter_id@),
    {
        let deposit = self.get_deposit(supporter_id)?;
        match self.stnear_price_at_freeze {
            Some(p) => proportional_result(deposit, p, NEAR),
            None => Ok(0),
        }
    }

    pub fn get_tokens_to_release(&self) -> (r: Result<u128, KatherineError>)
        requires
            self.wf(),
        ensures
            r == self@.spec_tokens_to_release(),
    {
        let goal = self.get_winner_goal()?;
        proportional_result(self.total_deposited, goal.tokens_to_release_per_stnear, NEAR)
    }

    pub fn get_total_rewards_for_supporters(&self) -> (r: Result<u128, KatherineError>)
        requires
            self.wf(),
        ensures
            r == self@.spec_total_rewards_for_supporters(),
    {
        let tokens = self.get_tokens_to_release()?;
        let fee = match self.katherine_fee {
            Some(f) => f,
            None => return Err(KatherineError::KatherineFeeNotDenominated),
        };
        if tokens >= fee {
            Ok(tokens - fee)
        } else {
            Err(KatherineError::ArithmeticOverflow)
        }
    }

    /// The ids of the supporters with a deposit, in the order of the deposits.
    pub fn get_supporter_ids(&self) -> (r: Vec<String>)
        ensures
            r@.map_values(|k: String| k@) == self@.deposit_order,
    {
        self.deposits.keys()
    }

    pub fn get_deposits(&self) -> (r: &AccountMap<u128>)
        ensures
            *r == self.deposits,
    {
        &self.deposits
    }

    /// The total deposited.
    pub fn get_total_deposited_amount(&self) -> (r: u128)
        ensures
            r == self.total_deposited,
    {
        self.total_deposited
    }

    /// The winning goal (same as `get_winner_goal`).
    pub fn get_goal(&self) -> (r: Result<Goal, KatherineError>)
        requires
            self.wf(),
        ensures
            match r {
                Ok(g) => self.winner_goal_id is Some && g == self@.winner_goal(),
                Err(e) => self.winner_goal_id is None && e == KatherineError::NoGoalDefined,
            },
    {
        self.get_winner_goal()
    }

    /// An stNEAR amount divided by the price at freeze.
    pub fn convert_stnear_to_near(&self, amount_in_stnear: u128) -> (r: Result<u128, KatherineError>)
        ensures
            r == match self.stnear_price_at_freeze {
                None => Err(KatherineError::ConversionRateNotEstablished),
                Some(rate) => if rate == 0 {
                    Err(KatherineError::DivisionByZero)
                } else {
                    Ok(amount_in_stnear / rate)
                },
            },
    {
        let rate = match self.stnear_price_at_freeze {
            Some(rate) => rate,
            None => return Err(KatherineError::ConversionRateNotEstablished),
        };
        if rate == 0 {
            return Err(KatherineError::DivisionByZero);
        }
        Ok(amount_in_stnear / rate)
    }

    /// Sets Katherine's fee: `katherine_fee_percent` basis points of the tokens
    /// that the total deposited earns under `goal`.
    pub fn set_katherine_fee(&mut self, katherine_fee_percent: BasisPoints, goal: &Goal) -> (r: Result<
        (),
        KatherineError,
    >)
        requires
            old(self).wf(),
        ensures
            final(self).wf(),
            match spec_proportional_result(
                old(self).total_deposited,
                goal.tokens_to_release_per_stnear,
                NEAR,
            ) {
                Err(e) => r == Err::<(), _>(e) && *final(self) == *old(self),
                Ok(t) => match spec_proportional_result(katherine_fee_percent as u128, t, BASIS_POINTS) {
                    Err(e) => r == Err::<(), _>(e) && *final(self) == *old(self),
                    Ok(fee) => r is Ok && final(self)@ == (KickstarterView {
                        katherine_fee: Some(fee),
                        ..old(self)@
                    }),
                },
            },
    {
        let total = proportional_result(self.total_deposited, goal.tokens_to_release_per_stnear, NEAR)?;
        let katherine_fee = proportional_result(katherine_fee_percent as u128, total, BASIS_POINTS)?;
        self.katherine_fee = Some(katherine_fee);
        Ok(())
    }

    /// A supporter's share of the rewards for `amount_in_stnear` deposited.
    pub fn convert_stnear_to_token_shares(&self, amount_in_stnear: u128) -> (r: Result<u128, KatherineError>)
        requires
            self.wf(),
        ensures
            r == match self@.spec_total_rewards_for_supporters() {
                Err(e) => Err(e),
                Ok(rewards) => if amount_in_stnear * rewards > u128::MAX {
                    Err(KatherineError::ArithmeticOverflow)
                } else if self.total_deposited == 0 {
                    Err(KatherineError::DivisionByZero)
                } else {
                    Ok(((amount_in_stnear * rewards) / (self.total_deposited as int)) as u128)
                },
            },
    {
        let tokens_rewards = self.get_total_rewards_for_supporters()?;
        let product = match amount_in_stnear.checked_mul(tokens_rewards) {
            Some(p) => p,
            None => return Err(KatherineError::ArithmeticOverflow),
        };
        if self.total_deposited == 0 {
            return Err(KatherineError::DivisionByZero);
        }
        Ok(product / self.total_deposited)
    }

    pub fn get_reward_cliff_timestamp(&self) -> (r: Result<EpochMillis, KatherineError>)
        requires
            self.wf(),
        ensures
            match r {
                Ok(t) => self.winner_goal_id is Some && t == self@.winner_goal().cliff_timestamp,
                Err(e) => self.winner_goal_id is None && e == KatherineError::NoGoalDefined,
            },
    {
        let goal = self.get_winner_goal()?;
        Ok(goal.cliff_timestamp)
    }

    pub fn get_reward_end_timestamp(&self) -> (r: Result<EpochMillis, KatherineError>)
        requires
            self.wf(),
        ensures
            match r {
                Ok(t) => self.winner_goal_id is Some && t == self@.winner_goal().end_timestamp,
                Err(e) => self.winner_goal_id is None && e == KatherineError::NoGoalDefined,
            },
    {
        let goal = self.get_winner_goal()?;
        Ok(goal.end_timestamp)
    }

    pub fn get_number_of_goals(&self) -> (r: u8)
        requires
            self.goals@.len() <= 255,
        ensures
            r == self.goals@.len(),
    {
        self.goals.len() as u8
    }

    pub fn to_json(&self) -> (r: KickstarterJSON)
        requires
            self.wf(),
        ensures
            r == self@.spec_json(),
    {
        KickstarterJSON {
            id: self.id,
            total_supporters: self.get_total_supporters(),
            total_deposited: self.total_deposited,
            open_timestamp: self.open_timestamp,
            close_timestamp: self.close_timestamp,
        }
    }
}

impl Kickstarter {
    /// All the details of the kickstarter, with its goals; a price not yet
    /// known shows as 0.
    pub fn to_details_json(&self) -> (r: KickstarterDetailsJSON)
        requires
            self.wf(),
        ensures
            details_json_matches(r, self@),
    {
        let mut goals: Vec<GoalJSON> = Vec::new();
        let mut i: usize = 0;
        while i < self.goals.len()
            invariant
                i <= self.goals@.len(),
                goals@.len() == i,
                forall|j: int| 0 <= j < i ==> goal_json_matches(#[trigger] goals@[j], self.goals@[j]),
            decreases self.goals@.len() - i,
        {
            goals.push(self.goals[i].to_json());
            i = i + 1;
        }
        let stnear_price_at_freeze = match self.stnear_price_at_freeze {
            Some(p) => p,
            None => 0,
        };
        let stnear_price_at_unfreeze = match self.stnear_price_at_unfreeze {
            Some(p) => p,
            None => 0,
        };
        KickstarterDetailsJSON {
            id: self.id,
            total_supporters: self.get_total_supporters(),
            total_deposited: self.total_deposited,
            stnear_price_at_freeze,
            stnear_price_at_unfreeze,
            open_timestamp: self.open_timestamp,
            close_timestamp: self.close_timestamp,
            token_contract_address: self.token_contract_address.clone(),
            goals,
            active: self.active,
            successful: self.successful,
            winner_goal_id: self.winner_goal_id,
            enough_reward_tokens: self.enough_reward_tokens,
        }
    }
}

/// The detailed JSON form carries the kickstarter's fields and goals; a
/// price not yet known shows as 0.
pub open spec fn details_json_matches(r: KickstarterDetailsJSON, k: KickstarterView) -> bool {
    &&& r.id == k.id
    &&& r.total_supporters == k.deposits.len() as u32
    &&& r.total_deposited == k.total_deposited
    &&& r.open_timestamp == k.open_timestamp
    &&& r.close_timestamp == k.close_timestamp
    &&& r.token_contract_address@ == k.token_contract_address
    &&& r.stnear_price_at_freeze == match k.stnear_price_at_freeze {
        Some(p) => p,
        None => 0,
    }
    &&& r.stnear_price_at_unfreeze == match k.stnear_price_at_unfreeze {
        Some(p) => p,
        None => 0,
    }
    &&& r.goals@.len() == k.goals.len()
    &&& forall|i: int| 0 <= i < k.goals.len() ==> goal_json_matches(#[trigger] r.goals@[i], k.goals[i])
    &&& r.active == k.active
    &&& r.successful == k.successful
    &&& r.winner_goal_id == k.winner_goal_id
    &&& r.enough_reward_tokens == k.enough_reward_tokens
}

/// The JSON form carries the goal's fields.
pub open spec fn goal_json_matches(j: GoalJSON, g: Goal) -> bool {
    &&& j.id == g.id
    &&& j.name@ == g.name@
    &&& j.desired_amount == g.desired_amount
    &&& j.unfreeze_timestamp == g.unfreeze_timestamp
    &&& j.tokens_to_release_per_stnear == g.tokens_to_release_per_stnear
    &&& j.cliff_timestamp == g.cliff_timestamp
    &&& j.end_timestamp == g.end_timestamp
}

} // verus!
