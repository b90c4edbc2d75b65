//! Read-only queries on kickstarters and on what supporters hold in them.

use vstd::prelude::*;

use crate::constants::WithdrawEntity;
use crate::contract::{KatherineFundraising, KatherineView};
use crate::errors::KatherineError;
use crate::kickstarter::{details_json_matches, goal_json_matches, KickstarterView};
use crate::process::page_end;
use crate::types::{
    ActiveKickstarterJSON, BalanceJSON, EpochMillis, GoalIdJSON, GoalJSON, KickstarterDetailsJSON, KickstarterId,
    KickstarterIdJSON, KickstarterJSON, SupporterDetailedJSON,
};
use crate::utils::{proportional_result, spec_proportional_result};

verus! {

/// The summaries of the kickstarters listed at positions `from..to` of `ids`
/// whose being within the funding period at `now` equals `open`, in order.
pub open spec fn active_page(
    ks: Seq<KickstarterView>,
    ids: Seq<u32>,
    from: int,
    to: int,
    open: bool,
    now: EpochMillis,
) -> Seq<KickstarterJSON>
    decreases to - from,
{
    if to <= from {
        Seq::empty()
    } else {
        let rest = active_page(ks, ids, from, to - 1, open, now);
        let k = ks[ids[to - 1] as int];
        if k.spec_is_within_funding_period(now) == open {
            rest.push(k.spec_json())
        } else {
            rest
        }
    }
}

impl KatherineView {
    /// `supporter` has a record that lists kickstarter `id`.
    pub open spec fn is_supporting(self, supporter: Seq<char>, id: KickstarterId) -> bool {
        self.supporters.contains_key(supporter) && self.supporters[supporter].kickstarters.contains(id)
    }

    /// All the project tokens `supporter` may still claim from kickstarter
    /// `id`, whatever the time; `None` when the supporter takes no part in a
    /// successful kickstarter.
    pub open spec fn spec_supporter_total_rewards(self, supporter: Seq<char>, id: KickstarterId) -> Result<
        Option<u128>,
        KatherineError,
    > {
        match self.kickstarter(id) {
            Err(e) => Err(e),
            Ok(k) => if self.is_supporting(supporter, id) && k.winner_goal_id is Some {
                match k.spec_supporter_rewards(supporter, k.winner_goal().tokens_to_release_per_stnear) {
                    Err(e) => Err(e),
                    Ok(v) => Ok(Some(v)),
                }
            } else {
                Ok(None)
            },
        }
    }

    /// The project tokens `supporter` may claim from kickstarter `id` at time
    /// `now`; `None` when the supporter takes no part in a successful kickstarter.
    pub open spec fn spec_supporter_available_rewards(self, supporter: Seq<char>, id: KickstarterId, now: EpochMillis) -> Result<
        Option<u128>,
        KatherineError,
    > {
        match self.kickstarter(id) {
            Err(e) => Err(e),
            Ok(k) => if self.is_supporting(supporter, id) && k.winner_goal_id is Some {
                match k.spec_available_rewards(supporter, now) {
                    Err(e) => Err(e),
                    Ok(v) => Ok(Some(v)),
                }
            } else {
                Ok(None)
            },
        }
    }

    /// The stNEAR a supporter would take back from a kickstarter whose funds
    /// are frozen, were they unfrozen at the stNEAR price `price`.
    pub open spec fn spec_supporter_estimated_stnear(self, supporter: Seq<char>, id: KickstarterId, price: u128) -> Result<
        u128,
        KatherineError,
    > {
        match self.kickstarter(id) {
            Err(e) => Err(e),
            Ok(k) => if k.successful == Some(true) && k.stnear_price_at_unfreeze is None {
                let price_at_freeze = k.stnear_price_at_freeze.unwrap();
                if price < price_at_freeze {
                    Err(KatherineError::WrongStNearPrice)
                } else if !k.deposits.contains_key(supporter) {
                    Err(KatherineError::SupporterNotInKickstarter)
                } else {
                    spec_proportional_result(k.deposits[supporter], price_at_freeze, price)
                }
            } else {
                Err(KatherineError::FundsNotFrozen)
            },
        }
    }

    /// The stNEAR a supporter holds in kickstarter `id`: the deposit before
    /// success, what is left to withdraw after the unfreeze, and an estimate
    /// at `price` while the funds are frozen.
    pub open spec fn spec_supporter_total_deposit(self, supporter: Seq<char>, id: KickstarterId, price: Option<u128>) -> Result<
        u128,
        KatherineError,
    > {
        match self.kickstarter(id) {
            Err(e) => Err(e),
            Ok(k) => if k.successful == Some(true) {
                if k.stnear_price_at_unfreeze is Some {
                    match k.spec_after_unfreeze_deposits(supporter) {
                        Err(e) => Err(e),
                        Ok(after) => if after < k.stnear_withdraw_of(supporter) {
                            Err(KatherineError::ArithmeticOverflow)
                        } else {
                            Ok((after - k.stnear_withdraw_of(supporter)) as u128)
                        },
                    }
                } else {
                    match price {
                        None => Err(KatherineError::StNearPriceRequired),
                        Some(p) => self.spec_supporter_estimated_stnear(supporter, id, p),
                    }
                }
            } else if k.deposits.contains_key(supporter) {
                Ok(k.deposits[supporter])
            } else {
                Err(KatherineError::SupporterNotInKickstarter)
            },
        }
    }

    /// What `supporter` holds in kickstarter `id`, with stNEAR estimated at
    /// `price` while the funds are frozen.
    pub open spec fn spec_supporter_detail(self, supporter: Seq<char>, id: KickstarterId, price: u128, now: EpochMillis) -> Result<
        SupporterDetailedJSON,
        KatherineError,
    > {
        match self.kickstarter(id) {
            Err(e) => Err(e),
            Ok(k) => match self.spec_supporter_total_deposit(supporter, id, Some(price)) {
                Err(e) => Err(e),
                Ok(deposit) => match k.spec_at_freeze_deposits_in_near(supporter) {
                    Err(e) => Err(e),
                    Ok(in_near) => match self.spec_supporter_total_rewards(supporter, id) {
                        Err(e) => Err(e),
                        Ok(rewards) => match self.spec_supporter_available_rewards(supporter, id, now) {
                            Err(e) => Err(e),
                            Ok(available) => Ok(
                                SupporterDetailedJSON {
                                    kickstarter_id: id,
                                    supporter_deposit: deposit,
                                    deposit_in_near: in_near,
                                    rewards,
                                    available_rewards: available,
                                    active: k.active,
                                    successful: k.successful,
                                },
                            ),
                        },
                    },
                },
            },
        }
    }

    /// The details of the kickstarters at positions `from..to` of `ids`, or
    /// the first error met.
    pub open spec fn spec_detailed_page(
        self,
        supporter: Seq<char>,
        ids: Seq<u32>,
        from: int,
        to: int,
        price: u128,
        now: EpochMillis,
    ) -> Result<Seq<SupporterDetailedJSON>, KatherineError>
        decreases to - from,
    {
        if to <= from {
            Ok(Seq::empty())
        } else {
            match self.spec_detailed_page(supporter, ids, from, to - 1, price, now) {
                Err(e) => Err(e),
                Ok(rest) => match self.spec_supporter_detail(supporter, ids[to - 1], price, now) {
                    Err(e) => Err(e),
                    Ok(d) => Ok(rest.push(d)),
                },
            }
        }
    }
}

impl KatherineFundraising {
    /// All the project tokens the supporter may still claim, whatever the time.
    pub fn get_supporter_total_rewards(&self, supporter_id: &String, kickstarter_id: KickstarterIdJSON) -> (r: Result<
        Option<BalanceJSON>,
        KatherineError,
    >)
        requires
            self.wf(),
        ensures
            r == self@.spec_supporter_total_rewards(supporter_id@, kickstarter_id),
    {
        let kickstarter = self.internal_get_kickstarter(kickstarter_id)?;
        match self.supporters.get(supporter_id) {
            Some(supporter) => {
                if supporter.is_supporting(kickstarter_id) && kickstarter.winner_goal_id.is_some() {
                    let goal = kickstarter.get_winner_goal()?;
                    let rewards = self.internal_get_supporter_rewards(
                        supporter_id,
                        kickstarter,
                        goal.tokens_to_release_per_stnear,
                    )?;
                    Ok(Some(rewards))
                } else {
                    Ok(None)
                }
            },
            None => Ok(None),
        }
    }

    /// The project tokens the supporter may claim at time `now`.
    pub fn get_supporter_available_rewards(
        &self,
        supporter_id: &String,
        kickstarter_id: KickstarterIdJSON,
        now: EpochMillis,
    ) -> (r: Result<Option<BalanceJSON>, KatherineError>)
        requires
            self.wf(),
        ensures
            r == self@.spec_supporter_available_rewards(supporter_id@, kickstarter_id, now),
    {
        let kickstarter = self.internal_get_kickstarter(kickstarter_id)?;
        match self.supporters.get(supporter_id) {
            Some(supporter) => {
                if supporter.is_supporting(kickstarter_id) && kickstarter.winner_goal_id.is_some() {
                    let rewards = self.internal_get_available_rewards(supporter_id, kickstarter, now)?;
                    Ok(Some(rewards))
                } else {
                    Ok(None)
                }
            },
            None => Ok(None),
        }
    }
}

impl KatherineFundraising {
    /// The stNEAR the supporter would take back at the stNEAR price
    /// `st_near_price`, while the kickstarter's funds are frozen.
    pub fn get_supporter_estimated_stnear(
        &self,
        supporter_id: &String,
        kickstarter_id: KickstarterIdJSON,
        st_near_price: BalanceJSON,
    ) -> (r: Result<BalanceJSON, KatherineError>)
        requires
            self.wf(),
        ensures
            r == self@.spec_supporter_estimated_stnear(supporter_id@, kickstarter_id, st_near_price),
    {
        let kickstarter = self.internal_get_kickstarter(kickstarter_id)?;
        if kickstarter.successful == Some(true) && kickstarter.stnear_price_at_unfreeze.is_none() {
            let price_at_freeze = kickstarter.stnear_price_at_freeze.unwrap();
            if st_near_price < price_at_freeze {
                return Err(KatherineError::WrongStNearPrice);
            }
            let amount = kickstarter.get_deposit(supporter_id)?;
            proportional_result(amount, price_at_freeze, st_near_price)
        } else {
            Err(KatherineError::FundsNotFrozen)
        }
    }

    /// The stNEAR the supporter holds in the kickstarter; while the funds are
    /// frozen an estimate at `st_near_price`, which must then be given.
    pub fn get_supporter_total_deposit_in_kickstarter(
        &self,
        supporter_id: &String,
        kickstarter_id: KickstarterIdJSON,
        st_near_price: Option<BalanceJSON>,
    ) -> (r: Result<BalanceJSON, KatherineError>)
        requires
            self.wf(),
        ensures
            r == self@.spec_supporter_total_deposit(supporter_id@, kickstarter_id, st_near_price),
    {
        let kickstarter = self.internal_get_kickstarter(kickstarter_id)?;
        match kickstarter.successful {
            Some(true) => {
                if kickstarter.is_unfreeze() {
                    let entity = WithdrawEntity::Supporter(supporter_id.clone());
                    let after = kickstarter.get_after_unfreeze_deposits(supporter_id)?;
                    let withdrawn = kickstarter.get_stnear_withdraw(&entity);
                    if after < withdrawn {
                        return Err(KatherineError::ArithmeticOverflow);
                    }
                    Ok(after - withdrawn)
                } else {
                    match st_near_price {
                        None => Err(KatherineError::StNearPriceRequired),
                        Some(price) => self.get_supporter_estimated_stnear(supporter_id, kickstarter_id, price),
                    }
                }
            },
            _ => kickstarter.get_deposit(supporter_id),
        }
    }

    /// The kickstarters the supporter takes part in.
    pub fn get_supported_projects(&self, supporter_id: &String) -> (r: Vec<KickstarterIdJSON>)
        requires
            self.wf(),
        ensures
            r@ == self@.supporter_or_new(supporter_id@).kickstarters,
    {
        let supporter = self.internal_get_supporter(supporter_id);
        supporter.kickstarters.to_vec()
    }

    /// What the supporter holds in the kickstarters at positions
    /// `from_index..from_index + limit` of its projects; `None` when it has
    /// none or `from_index` is past their end.
    pub fn get_supported_detailed_list(
        &self,
        supporter_id: &String,
        st_near_price: BalanceJSON,
        from_index: u32,
        limit: u32,
        now: EpochMillis,
    ) -> (r: Result<Option<Vec<SupporterDetailedJSON>>, KatherineError>)
        requires
            self.wf(),
        ensures
            ({
                let ids = self@.supporter_or_new(supporter_id@).kickstarters;
                if from_index > ids.len() || ids.len() == 0 {
                    r == Ok::<Option<Vec<SupporterDetailedJSON>>, KatherineError>(None)
                } else {
                    match self@.spec_detailed_page(
                        supporter_id@,
                        ids,
                        from_index as int,
                        page_end(from_index as int, limit as int, ids.len() as int),
                        st_near_price,
                        now,
                    ) {
                        Ok(s) => r matches Ok(Some(v)) && v@ == s,
                        Err(e) => r == Err::<Option<Vec<SupporterDetailedJSON>>, KatherineError>(e),
                    }
                }
            }),
    {
        let kickstarter_ids = self.get_supported_projects(supporter_id);
        let kickstarters_len = kickstarter_ids.len() as u64;
        let start: u64 = from_index as u64;
        if start > kickstarters_len || kickstarters_len == 0 {
            return Ok(None);
        }
        let end: u64 = if start + (limit as u64) < kickstarters_len {
            start + limit as u64
        } else {
            kickstarters_len
        };
        let ghost ids = kickstarter_ids@;
        let mut result: Vec<SupporterDetailedJSON> = Vec::new();
        let mut index: u64 = start;
        while index < end
            invariant
                self.wf(),
                kickstarter_ids@ == ids,
                ids == self@.supporter_or_new(supporter_id@).kickstarters,
                end == page_end(start as int, limit as int, ids.len() as int),
                start == from_index,
                kickstarters_len == ids.len(),
                start <= index <= end <= kickstarters_len,
                self@.spec_detailed_page(supporter_id@, ids, start as int, index as int, st_near_price, now)
                    == Ok::<Seq<SupporterDetailedJSON>, KatherineError>(result@),
            decreases end - index,
        {
            let kickstarter_id = kickstarter_ids[index as usize];
            let detail = self.supporter_detail(supporter_id, kickstarter_id, st_near_price, now);
            match detail {
                Ok(d) => {
                    result.push(d);
                },
                Err(e) => {
                    proof {
                        self@.lemma_detailed_page_error(
                            supporter_id@,
                            ids,
                            start as int,
                            index as int,
                            end as int,
                            st_near_price,
                            now,
                        );
                    }
                    return Err(e);
                },
            }
            index = index + 1;
        }
        Ok(Some(result))
    }
}

impl KatherineView {
    /// A page of details fails with the error of its first failing entry.
    proof fn lemma_detailed_page_error(
        self,
        supporter: Seq<char>,
        ids: Seq<u32>,
        from: int,
        i: int,
        to: int,
        price: u128,
        now: EpochMillis,
    )
        requires
            from <= i < to,
            self.spec_detailed_page(supporter, ids, from, i, price, now) is Ok,
            self.spec_supporter_detail(supporter, ids[i], price, now) is Err,
        ensures
            self.spec_detailed_page(supporter, ids, from, to, price, now) == Err::<Seq<SupporterDetailedJSON>, KatherineError>(
                self.spec_supporter_detail(supporter, ids[i], price, now)->Err_0,
            ),
        decreases to - i,
    {
        if to > i + 1 {
            self.lemma_detailed_page_error(supporter, ids, from, i, to - 1, price, now);
        }
    }
}

impl KatherineFundraising {
    /// What the supporter holds in one kickstarter, with stNEAR estimated at
    /// `st_near_price` while the funds are frozen.
    fn supporter_detail(
        &self,
        supporter_id: &String,
        kickstarter_id: KickstarterIdJSON,
        st_near_price: BalanceJSON,
        now: EpochMillis,
    ) -> (r: Result<SupporterDetailedJSON, KatherineError>)
        requires
            self.wf(),
        ensures
            r == self@.spec_supporter_detail(supporter_id@, kickstarter_id, st_near_price, now),
    {
        let kickstarter = self.internal_get_kickstarter(kickstarter_id)?;
        let supporter_deposit = self.get_supporter_total_deposit_in_kickstarter(
            supporter_id,
            kickstarter_id,
            Some(st_near_price),
        )?;
        let deposit_in_near = kickstarter.get_at_freeze_deposits_in_near(supporter_id)?;
        let rewards = self.get_supporter_total_rewards(supporter_id, kickstarter_id)?;
        let available_rewards = self.get_supporter_available_rewards(supporter_id, kickstarter_id, now)?;
        Ok(
            SupporterDetailedJSON {
                kickstarter_id,
                supporter_deposit,
                deposit_in_near,
                rewards,
                available_rewards,
                active: kickstarter.active,
                successful: kickstarter.successful,
            },
        )
    }
}

impl KatherineFundraising {
    /// The active kickstarters at positions `from_index..from_index + limit`
    /// of the active list, split into those within their funding period
    /// (`open`) and the others (`active`); `None` when `from_index` is larger
    /// than the number of kickstarters.
    pub fn get_active_projects(&self, from_index: u32, limit: u32, now: EpochMillis) -> (r: Option<ActiveKickstarterJSON>)
        requires
            self.wf(),
        ensures
            match r {
                None => from_index > self@.kickstarters.len(),
                Some(j) => {
                    let ids = self@.active_projects;
                    let end = page_end(from_index as int, limit as int, ids.len() as int);
                    &&& from_index <= self@.kickstarters.len()
                    &&& j.open@ == active_page(self@.kickstarters, ids, from_index as int, end, true, now)
                    &&& j.active@ == active_page(self@.kickstarters, ids, from_index as int, end, false, now)
                },
            },
    {
        let projects = self.active_projects.to_vec();
        let projects_len = projects.len() as u64;
        let start: u64 = from_index as u64;
        if start > self.kickstarters.len() as u64 {
            return None;
        }
        if start >= projects_len {
            return Some(ActiveKickstarterJSON { active: Vec::new(), open: Vec::new() });
        }
        let end: u64 = if start + (limit as u64) < projects_len {
            start + limit as u64
        } else {
            projects_len
        };
        let ghost ids = projects@;
        let mut active: Vec<KickstarterJSON> = Vec::new();
        let mut open: Vec<KickstarterJSON> = Vec::new();
        let mut index: u64 = start;
        while index < end
            invariant
                self.wf(),
                projects@ == ids,
                ids == self@.active_projects,
                projects_len == ids.len(),
                start <= index <= end <= projects_len,
                open@ == active_page(self@.kickstarters, ids, start as int, index as int, true, now),
                active@ == active_page(self@.kickstarters, ids, start as int, index as int, false, now),
            decreases end - index,
        {
            let kickstarter_id = projects[index as usize];
            let kickstarter = &self.kickstarters[kickstarter_id as usize];
            if kickstarter.is_within_funding_period(now) {
                open.push(kickstarter.to_json());
            } else {
                active.push(kickstarter.to_json());
            }
            index = index + 1;
        }
        Some(ActiveKickstarterJSON { active, open })
    }

    /// All the details of a kickstarter.
    pub fn get_project_details(&self, kickstarter_id: KickstarterIdJSON) -> (r: Result<KickstarterDetailsJSON, KatherineError>)
        requires
            self.wf(),
        ensures
            match self@.kickstarter(kickstarter_id) {
                Err(e) => r == Err::<KickstarterDetailsJSON, KatherineError>(e),
                Ok(k) => r matches Ok(d) && details_json_matches(d, k),
            },
    {
        let kickstarter = self.internal_get_kickstarter(kickstarter_id)?;
        Ok(kickstarter.to_details_json())
    }

    /// The summaries of the kickstarters at positions
    /// `from_index..from_index + limit`.
    pub fn get_kickstarters(&self, from_index: usize, limit: usize) -> (r: Result<Vec<KickstarterJSON>, KatherineError>)
        requires
            self.wf(),
        ensures
            ({
                let len = self@.kickstarters.len();
                if from_index > len {
                    r == Err::<Vec<KickstarterJSON>, KatherineError>(KatherineError::FromIndexOutOfRange)
                } else if from_index + limit > usize::MAX {
                    r == Err::<Vec<KickstarterJSON>, KatherineError>(KatherineError::ArithmeticOverflow)
                } else {
                    r matches Ok(v) && v@ == self@.kickstarters.subrange(
                        from_index as int,
                        page_end(from_index as int, limit as int, len as int),
                    ).map_values(|k: KickstarterView| k.spec_json())
                }
            }),
    {
        let kickstarters_len = self.kickstarters.len();
        if from_index > kickstarters_len {
            return Err(KatherineError::FromIndexOutOfRange);
        }
        if from_index > usize::MAX - limit {
            return Err(KatherineError::ArithmeticOverflow);
        }
        let end: usize = if from_index + limit < kickstarters_len {
            from_index + limit
        } else {
            kickstarters_len
        };
        let ghost ks = self@.kickstarters;
        let mut results: Vec<KickstarterJSON> = Vec::new();
        let mut index: usize = from_index;
        while index < end
            invariant
                self.wf(),
                ks == self@.kickstarters,
                from_index <= index <= end <= kickstarters_len,
                kickstarters_len == ks.len(),
                results@ == ks.subrange(from_index as int, index as int).map_values(|k: KickstarterView| k.spec_json()),
            decreases end - index,
        {
            results.push(self.kickstarters[index].to_json());
            proof {
                assert(ks.subrange(from_index as int, index + 1).map_values(|k: KickstarterView| k.spec_json())
                    =~= ks.subrange(from_index as int, index as int).map_values(|k: KickstarterView| k.spec_json()).push(
                    ks[index as int].spec_json(),
                ));
            }
            index = index + 1;
        }
        Ok(results)
    }

    /// The summary of one kickstarter; an id past the number of kickstarters
    /// is out of range.
    pub fn get_kickstarter(&self, kickstarter_id: KickstarterIdJSON) -> (r: Result<KickstarterJSON, KatherineError>)
        requires
            self.wf(),
        ensures
            r == if kickstarter_id > self@.kickstarters.len() {
                Err(KatherineError::IndexOutOfRange)
            } else {
                match self@.kickstarter(kickstarter_id) {
                    Err(e) => Err(e),
                    Ok(k) => Ok(k.spec_json()),
                }
            },
    {
        let kickstarters_len = self.get_total_kickstarters();
        if kickstarter_id > kickstarters_len {
            return Err(KatherineError::IndexOutOfRange);
        }
        let kickstarter = self.internal_get_kickstarter(kickstarter_id)?;
        Ok(kickstarter.to_json())
    }

    pub fn get_total_kickstarters(&self) -> (r: u32)
        requires
            self.wf(),
        ensures
            r == self@.kickstarters.len(),
    {
        self.kickstarters.len() as u32
    }

    /// The id of the kickstarter with slug `slug`.
    pub fn get_kickstarter_id_from_slug(&self, slug: &String) -> (r: Result<KickstarterId, KatherineError>)
        requires
            self.wf(),
        ensures
            r == if self@.kickstarter_id_by_slug.contains_key(slug@) {
                Ok(self@.kickstarter_id_by_slug[slug@])
            } else {
                Err(KatherineError::NonexistentSlug)
            },
    {
        match self.kickstarter_id_by_slug.get(slug) {
            Some(id) => Ok(*id),
            None => Err(KatherineError::NonexistentSlug),
        }
    }

    /// The number of goals of a kickstarter.
    pub fn get_kickstarter_total_goals(&self, kickstarter_id: KickstarterIdJSON) -> (r: Result<u8, KatherineError>)
        requires
            self.wf(),
        ensures
            r == match self@.kickstarter(kickstarter_id) {
                Err(e) => Err(e),
                Ok(k) => Ok(k.goals.len() as u8),
            },
    {
        let kickstarter = self.internal_get_kickstarter(kickstarter_id)?;
        Ok(kickstarter.get_number_of_goals())
    }

    /// Goal `goal_id` of a kickstarter.
    pub fn get_kickstarter_goal(&self, kickstarter_id: KickstarterIdJSON, goal_id: GoalIdJSON) -> (r: Result<
        GoalJSON,
        KatherineError,
    >)
        requires
            self.wf(),
        ensures
            match self@.kickstarter(kickstarter_id) {
                Err(e) => r == Err::<GoalJSON, KatherineError>(e),
                Ok(k) => if goal_id < k.goals.len() {
                    r matches Ok(j) && goal_json_matches(j, k.goals[goal_id as int])
                } else {
                    r == Err::<GoalJSON, KatherineError>(KatherineError::GoalNotFound)
                },
            },
    {
        let kickstarter = self.internal_get_kickstarter(kickstarter_id)?;
        let goal = kickstarter.get_goal_by_id(goal_id)?;
        Ok(goal.to_json())
    }
}

} // verus!
