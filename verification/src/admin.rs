//! Creating and editing kickstarters and their goals.

use vstd::prelude::*;

use crate::collections::AccountMap;
use crate::contract::{KatherineFundraising, KatherineView};
use crate::errors::KatherineError;
use crate::goal::Goal;
use crate::kickstarter::{Kickstarter, KickstarterView};
use crate::types::{EpochMillis, GoalId, KickstarterId};

verus! {

/// A kickstarter as created: active, unfunded, with no goals.
pub open spec fn new_kickstarter_view(
    id: KickstarterId,
    name: Seq<char>,
    slug: Seq<char>,
    owner_id: Seq<char>,
    open_timestamp: EpochMillis,
    close_timestamp: EpochMillis,
    token_contract_address: Seq<char>,
    deposits_hard_cap: u128,
    max_tokens_to_release_per_stnear: u128,
    now: EpochMillis,
) -> KickstarterView {
    KickstarterView {
        id,
        name,
        slug,
        goals: Seq::empty(),
        owner_id,
        winner_goal_id: None,
        katherine_fee: None,
        total_tokens_to_release: None,
        deposits: Map::empty(),
        deposit_order: Seq::empty(),
        withdraw: Map::empty(),
        stnear_withdraw: Map::empty(),
        total_deposited: 0,
        deposits_hard_cap,
        max_tokens_to_release_per_stnear,
        enough_reward_tokens: false,
        active: true,
        successful: None,
        stnear_price_at_freeze: None,
        stnear_price_at_unfreeze: None,
        creation_timestamp: now,
        open_timestamp,
        close_timestamp,
        token_contract_address,
        available_reward_tokens: 0,
        locked_reward_tokens: 0,
        kickstarter_withdraw: 0,
    }
}

impl KatherineView {
    /// The outcome of creating a kickstarter, called by `caller` at time `now`.
    pub open spec fn spec_create_kickstarter(
        self,
        name: Seq<char>,
        slug: Seq<char>,
        owner_id: Seq<char>,
        open_timestamp: EpochMillis,
        close_timestamp: EpochMillis,
        token_contract_address: Seq<char>,
        deposits_hard_cap: u128,
        max_tokens_to_release_per_stnear: u128,
        caller: Seq<char>,
        now: EpochMillis,
    ) -> Result<KatherineView, KatherineError> {
        let id = self.kickstarters.len() as KickstarterId;
        if caller != self.owner_id {
            Err(KatherineError::OnlyAdmin)
        } else if self.kickstarter_id_by_slug.contains_key(slug) {
            Err(KatherineError::SlugAlreadyExists)
        } else if open_timestamp < now {
            Err(KatherineError::IncorrectOpenTimestamp)
        } else if close_timestamp < open_timestamp {
            Err(KatherineError::IncorrectCloseTimestamp)
        } else {
            Ok(
                KatherineView {
                    kickstarters: self.kickstarters.push(
                        new_kickstarter_view(
                            id,
                            name,
                            slug,
                            owner_id,
                            open_timestamp,
                            close_timestamp,
                            token_contract_address,
                            deposits_hard_cap,
                            max_tokens_to_release_per_stnear,
                            now,
                        ),
                    ),
                    kickstarter_id_by_slug: self.kickstarter_id_by_slug.insert(slug, id),
                    active_projects: self.active_projects.push(id),
                    ..self
                },
            )
        }
    }

    /// The outcome of replacing the description of kickstarter `id`, called
    /// by `caller` at time `now`.
    pub open spec fn spec_update_kickstarter(
        self,
        id: KickstarterId,
        name: Seq<char>,
        slug: Seq<char>,
        owner_id: Seq<char>,
        open_timestamp: EpochMillis,
        close_timestamp: EpochMillis,
        token_contract_address: Seq<char>,
        deposits_hard_cap: u128,
        max_tokens_to_release_per_stnear: u128,
        caller: Seq<char>,
        now: EpochMillis,
    ) -> Result<KatherineView, KatherineError> {
        if caller != self.owner_id {
            Err(KatherineError::OnlyAdmin)
        } else if self.kickstarter_id_by_slug.contains_key(slug) {
            Err(KatherineError::SlugAlreadyExists)
        } else {
            match self.kickstarter(id) {
                Err(e) => Err(e),
                Ok(k) => if now >= k.open_timestamp {
                    Err(KatherineError::ActionAfterFundingPeriodOpen)
                } else if open_timestamp < now {
                    Err(KatherineError::IncorrectOpenTimestamp)
                } else if close_timestamp < open_timestamp {
                    Err(KatherineError::IncorrectCloseTimestamp)
                } else {
                    Ok(
                        KatherineView {
                            kickstarter_id_by_slug: self.kickstarter_id_by_slug.remove(k.slug).insert(
                                slug,
                                id,
                            ),
                            ..self.set_kickstarter(
                                KickstarterView {
                                    name,
                                    slug,
                                    owner_id,
                                    open_timestamp,
                                    close_timestamp,
                                    token_contract_address,
                                    deposits_hard_cap,
                                    max_tokens_to_release_per_stnear,
                                    ..k
                                },
                            )
                        },
                    )
                },
            }
        }
    }

    /// The outcome of `caller` adding a goal to kickstarter `kickstarter_id`
    /// at time `now`: only the contract's owner or the kickstarter's owner may.
    pub open spec fn spec_create_goal(
        self,
        kickstarter_id: KickstarterId,
        name: String,
        desired_amount: u128,
        unfreeze_timestamp: EpochMillis,
        tokens_to_release_per_stnear: u128,
        cliff_timestamp: EpochMillis,
        end_timestamp: EpochMillis,
        caller: Seq<char>,
        now: EpochMillis,
    ) -> Result<KatherineView, KatherineError> {
        match self.kickstarter(kickstarter_id) {
            Err(e) => Err(e),
            Ok(k) => {
                let n = k.goals.len();
                let last = k.goals.last();
                if caller != self.owner_id && caller != k.owner_id {
                    Err(KatherineError::OnlyAdminOrKickstarterOwner)
                } else if k.winner_goal_id is Some {
                    Err(KatherineError::AlreadyHasWinningGoal)
                } else if now >= k.open_timestamp {
                    Err(KatherineError::ActionAfterFundingPeriodOpen)
                } else if n >= self.max_goals_per_kickstarter {
                    Err(KatherineError::TooManyGoals)
                } else if k.deposits_hard_cap < desired_amount {
                    Err(KatherineError::DesiredAmountExceedsHardCap)
                } else if k.max_tokens_to_release_per_stnear < tokens_to_release_per_stnear {
                    Err(KatherineError::TokensToReleaseExceedMax)
                } else if n > 0 && desired_amount < last.desired_amount {
                    Err(KatherineError::GoalDesiredAmountDecreases)
                } else if n > 0 && unfreeze_timestamp > last.unfreeze_timestamp {
                    Err(KatherineError::GoalFreezesLonger)
                } else if n > 0 && tokens_to_release_per_stnear < last.tokens_to_release_per_stnear {
                    Err(KatherineError::GoalReleasesLess)
                } else {
                    Ok(
                        self.set_kickstarter(
                            KickstarterView {
                                goals: k.goals.push(
                                    Goal {
                                        id: n as u8,
                                        name,
                                        desired_amount,
                                        unfreeze_timestamp,
                                        tokens_to_release_per_stnear,
                                        cliff_timestamp,
                                        end_timestamp,
                                    },
                                ),
                                ..k
                            },
                        ),
                    )
                }
            },
        }
    }

    /// The outcome of `caller` deleting the last goal of kickstarter
    /// `kickstarter_id` at time `now`: only the contract's owner or the
    /// kickstarter's owner may.
    pub open spec fn spec_delete_last_goal(self, kickstarter_id: KickstarterId, caller: Seq<char>, now: EpochMillis) -> Result<
        KatherineView,
        KatherineError,
    > {
        match self.kickstarter(kickstarter_id) {
            Err(e) => Err(e),
            Ok(k) => if caller != self.owner_id && caller != k.owner_id {
                Err(KatherineError::OnlyAdminOrKickstarterOwner)
            } else if k.winner_goal_id is Some {
                Err(KatherineError::AlreadyHasWinningGoal)
            } else if now >= k.open_timestamp {
                Err(KatherineError::ActionAfterFundingPeriodOpen)
            } else if k.goals.len() == 0 {
                Ok(self)
            } else {
                Ok(self.set_kickstarter(KickstarterView { goals: k.goals.drop_last(), ..k }))
            },
        }
    }
}

impl KatherineFundraising {
    /// The slug is not taken yet.
    pub fn assert_unique_slug(&self, slug: &String) -> (r: Result<(), KatherineError>)
        requires
            self.wf(),
        ensures
            r is Ok <==> !self@.kickstarter_id_by_slug.contains_key(slug@),
            r matches Err(e) ==> e == KatherineError::SlugAlreadyExists,
    {
        if self.kickstarter_id_by_slug.contains_key(slug) {
            Err(KatherineError::SlugAlreadyExists)
        } else {
            Ok(())
        }
    }

    /// Creates a kickstarter; only the contract's owner may. Its funding
    /// period must not open before `now` nor close before it opens. Returns
    /// its id, which is its index.
    pub fn create_kickstarter(
        &mut self,
        name: String,
        slug: String,
        owner_id: String,
        open_timestamp: EpochMillis,
        close_timestamp: EpochMillis,
        token_contract_address: String,
        deposits_hard_cap: u128,
        max_tokens_to_release_per_stnear: u128,
        predecessor_account_id: &String,
        now: EpochMillis,
    ) -> (r: Result<KickstarterId, KatherineError>)
        requires
            old(self).wf(),
            old(self).kickstarters@.len() < u32::MAX,
        ensures
            final(self).wf(),
            match old(self)@.spec_create_kickstarter(
                name@,
                slug@,
                owner_id@,
                open_timestamp,
                close_timestamp,
                token_contract_address@,
                deposits_hard_cap,
                max_tokens_to_release_per_stnear,
                predecessor_account_id@,
                now,
            ) {
                Ok(v) => r == Ok::<KickstarterId, KatherineError>(
                    old(self).kickstarters@.len() as KickstarterId,
                ) && final(self)@ == v,
                Err(e) => r == Err::<KickstarterId, KatherineError>(e) && *final(self) == *old(self),
            },
    {
        self.assert_only_admin(predecessor_account_id)?;
        self.assert_unique_slug(&slug)?;
        let id = self.kickstarters.len() as KickstarterId;
        self.internal_create_kickstarter(
            id,
            name,
            slug,
            owner_id,
            open_timestamp,
            close_timestamp,
            token_contract_address,
            deposits_hard_cap,
            max_tokens_to_release_per_stnear,
            now,
        )
    }

    /// Stores a new kickstarter under `id`, the next free index.
    pub fn internal_create_kickstarter(
        &mut self,
        id: KickstarterId,
        name: String,
        slug: String,
        owner_id: String,
        open_timestamp: EpochMillis,
        close_timestamp: EpochMillis,
        token_contract_address: String,
        deposits_hard_cap: u128,
        max_tokens_to_release_per_stnear: u128,
        now: EpochMillis,
    ) -> (r: Result<KickstarterId, KatherineError>)
        requires
            old(self).wf(),
            id == old(self).kickstarters@.len(),
            id < u32::MAX,
            !old(self)@.kickstarter_id_by_slug.contains_key(slug@),
        ensures
            final(self).wf(),
            if open_timestamp < now {
                r == Err::<KickstarterId, KatherineError>(KatherineError::IncorrectOpenTimestamp)
                    && *final(self) == *old(self)
            } else if close_timestamp < open_timestamp {
                r == Err::<KickstarterId, KatherineError>(KatherineError::IncorrectCloseTimestamp)
                    && *final(self) == *old(self)
            } else {
                r == Ok::<KickstarterId, KatherineError>(id) && final(self)@ == (KatherineView {
                    kickstarters: old(self)@.kickstarters.push(
                        new_kickstarter_view(
                            id,
                            name@,
                            slug@,
                            owner_id@,
                            open_timestamp,
                            close_timestamp,
                            token_contract_address@,
                            deposits_hard_cap,
                            max_tokens_to_release_per_stnear,
                            now,
                        ),
                    ),
                    kickstarter_id_by_slug: old(self)@.kickstarter_id_by_slug.insert(slug@, id),
                    active_projects: old(self)@.active_projects.push(id),
                    ..old(self)@
                })
            },
    {
        let kickstarter = Kickstarter {
            id,
            name,
            slug: slug.clone(),
            goals: Vec::new(),
            owner_id,
            winner_goal_id: None,
            katherine_fee: None,
            total_tokens_to_release: None,
            deposits: AccountMap::new(),
            withdraw: AccountMap::new(),
            stnear_withdraw: AccountMap::new(),
            total_deposited: 0,
            deposits_hard_cap,
            max_tokens_to_release_per_stnear,
            enough_reward_tokens: false,
            active: true,
            successful: None,
            stnear_price_at_freeze: None,
            stnear_price_at_unfreeze: None,
            creation_timestamp: now,
            open_timestamp,
            close_timestamp,
            token_contract_address,
            available_reward_tokens: 0,
            locked_reward_tokens: 0,
            kickstarter_withdraw: 0,
        };
        kickstarter.assert_timestamps(now)?;
        let ghost kv = kickstarter@;
        assert(kv.goals =~= Seq::<Goal>::empty());
        self.kickstarters.push(kickstarter);
        self.kickstarter_id_by_slug.insert(slug, id);
        proof {
            assert(!old(self)@.active_projects.contains(id));
        }
        self.active_projects.insert(id);
        proof {
            assert(self@.kickstarters =~= old(self)@.kickstarters.push(kv));
            assert forall|s: Seq<char>| #[trigger] self.supporters@.contains_key(s) implies crate::contract::supporter_wf(
                self.supporters@[s],
                self.kickstarters@.len() as int,
            ) by {
                assert(crate::contract::supporter_wf(old(self).supporters@[s], old(self).kickstarters@.len() as int));
            }
            assert(self@ =~= (KatherineView {
                kickstarters: old(self)@.kickstarters.push(kv),
                kickstarter_id_by_slug: old(self)@.kickstarter_id_by_slug.insert(slug@, id),
                active_projects: old(self)@.active_projects.push(id),
                ..old(self)@
            }));
        }
        Ok(id)
    }

    /// Kickstarters are never deleted: this always refuses.
    pub fn delete_kickstarter(&mut self, id: KickstarterId) -> (r: Result<(), KatherineError>)
        ensures
            r == Err::<(), KatherineError>(KatherineError::KickstarterMustNotBeDeleted { id }),
            *final(self) == *old(self),
    {
        Err(KatherineError::KickstarterMustNotBeDeleted { id })
    }

    /// Replaces the description of a kickstarter before its funding period
    /// opens; only the contract's owner may. The new slug must be free.
    pub fn update_kickstarter(
        &mut self,
        id: KickstarterId,
        name: String,
        slug: String,
        owner_id: String,
        open_timestamp: EpochMillis,
        close_timestamp: EpochMillis,
        token_contract_address: String,
        deposits_hard_cap: u128,
        max_tokens_to_release_per_stnear: u128,
        predecessor_account_id: &String,
        now: EpochMillis,
    ) -> (r: Result<(), KatherineError>)
        requires
            old(self).wf(),
        ensures
            final(self).wf(),
            match old(self)@.spec_update_kickstarter(
                id,
                name@,
                slug@,
                owner_id@,
                open_timestamp,
                close_timestamp,
                token_contract_address@,
                deposits_hard_cap,
                max_tokens_to_release_per_stnear,
                predecessor_account_id@,
                now,
            ) {
                Ok(v) => r is Ok && final(self)@ == v,
                Err(e) => r == Err::<(), KatherineError>(e) && *final(self) == *old(self),
            },
    {
        self.assert_only_admin(predecessor_account_id)?;
        self.assert_unique_slug(&slug)?;
        self.internal_update_kickstarter(
            id,
            name,
            slug,
            owner_id,
            open_timestamp,
            close_timestamp,
            token_contract_address,
            deposits_hard_cap,
            max_tokens_to_release_per_stnear,
            now,
        )
    }

    /// Replaces the description of kickstarter `id` and moves its slug.
    pub fn internal_update_kickstarter(
        &mut self,
        id: KickstarterId,
        name: String,
        slug: String,
        owner_id: String,
        open_timestamp: EpochMillis,
        close_timestamp: EpochMillis,
        token_contract_address: String,
        deposits_hard_cap: u128,
        max_tokens_to_release_per_stnear: u128,
        now: EpochMillis,
    ) -> (r: Result<(), KatherineError>)
        requires
            old(self).wf(),
            !old(self)@.kickstarter_id_by_slug.contains_key(slug@),
        ensures
            final(self).wf(),
            match old(self)@.spec_update_kickstarter(
                id,
                name@,
                slug@,
                owner_id@,
                open_timestamp,
                close_timestamp,
                token_contract_address@,
                deposits_hard_cap,
                max_tokens_to_release_per_stnear,
                old(self)@.owner_id,
                now,
            ) {
                Ok(v) => r is Ok && final(self)@ == v,
                Err(e) => r == Err::<(), KatherineError>(e) && *final(self) == *old(self),
            },
    {
        let old_kickstarter = self.internal_get_kickstarter(id)?;
        old_kickstarter.assert_before_funding_period(now)?;
        if open_timestamp < now {
            return Err(KatherineError::IncorrectOpenTimestamp);
        }
        if close_timestamp < open_timestamp {
            return Err(KatherineError::IncorrectCloseTimestamp);
        }
        let old_slug = old_kickstarter.slug.clone();
        let ghost old_k = self.kickstarters@[id as int];
        let k = &mut self.kickstarters[id as usize];
        k.name = name;
        k.slug = slug.clone();
        k.owner_id = owner_id;
        k.open_timestamp = open_timestamp;
        k.close_timestamp = close_timestamp;
        k.token_contract_address = token_contract_address;
        k.deposits_hard_cap = deposits_hard_cap;
        k.max_tokens_to_release_per_stnear = max_tokens_to_release_per_stnear;
        self.kickstarter_id_by_slug.remove(&old_slug);
        self.kickstarter_id_by_slug.insert(slug, id);
        proof {
            let new_k = self.kickstarters@[id as int];
            assert(self@ =~= (KatherineView {
                kickstarter_id_by_slug: old(self)@.kickstarter_id_by_slug.remove(old_k@.slug).insert(slug@, id),
                ..old(self)@.set_kickstarter(new_k@)
            }));
        }
        Ok(())
    }

    /// Adds a goal to a kickstarter before its funding period opens. Goals
    /// must come in order: each asks for at least the stNEAR of the previous
    /// one, freezes the funds no longer and releases at least as many tokens.
    /// Returns the new goal's id.
    pub fn internal_create_goal(
        &mut self,
        kickstarter_id: KickstarterId,
        name: String,
        desired_amount: u128,
        unfreeze_timestamp: EpochMillis,
        tokens_to_release_per_stnear: u128,
        cliff_timestamp: EpochMillis,
        end_timestamp: EpochMillis,
        predecessor_account_id: &String,
        now: EpochMillis,
    ) -> (r: Result<GoalId, KatherineError>)
        requires
            old(self).wf(),
        ensures
            final(self).wf(),
            match old(self)@.spec_create_goal(
                kickstarter_id,
                name,
                desired_amount,
                unfreeze_timestamp,
                tokens_to_release_per_stnear,
                cliff_timestamp,
                end_timestamp,
                predecessor_account_id@,
                now,
            ) {
                Ok(v) => r == Ok::<GoalId, KatherineError>(
                    old(self)@.kickstarters[kickstarter_id as int].goals.len() as u8,
                ) && final(self)@ == v,
                Err(e) => r == Err::<GoalId, KatherineError>(e) && *final(self) == *old(self),
            },
    {
        let max_goals = self.max_goals_per_kickstarter;
        let k = self.internal_get_kickstarter(kickstarter_id)?;
        if *predecessor_account_id != self.owner_id && *predecessor_account_id != k.owner_id {
            return Err(KatherineError::OnlyAdminOrKickstarterOwner);
        }
        k.assert_goal_status()?;
        k.assert_before_funding_period(now)?;
        let id = k.get_number_of_goals();
        if id >= max_goals {
            return Err(KatherineError::TooManyGoals);
        }
        if k.deposits_hard_cap < desired_amount {
            return Err(KatherineError::DesiredAmountExceedsHardCap);
        }
        if k.max_tokens_to_release_per_stnear < tokens_to_release_per_stnear {
            return Err(KatherineError::TokensToReleaseExceedMax);
        }
        if id > 0 {
            let last_goal = &k.goals[(id - 1) as usize];
            if desired_amount < last_goal.desired_amount {
                return Err(KatherineError::GoalDesiredAmountDecreases);
            }
            if unfreeze_timestamp > last_goal.unfreeze_timestamp {
                return Err(KatherineError::GoalFreezesLonger);
            }
            if tokens_to_release_per_stnear < last_goal.tokens_to_release_per_stnear {
                return Err(KatherineError::GoalReleasesLess);
            }
        }
        let goal = Goal {
            id,
            name,
            desired_amount,
            unfreeze_timestamp,
            tokens_to_release_per_stnear,
            cliff_timestamp,
            end_timestamp,
        };
        let ghost old_k = self.kickstarters@[kickstarter_id as int];
        let ghost g = goal;
        self.kickstarters[kickstarter_id as usize].goals.push(goal);
        proof {
            let new_k = self.kickstarters@[kickstarter_id as int];
            let gs = new_k.goals@;
            assert(gs == old_k.goals@.push(g));
            assert forall|i: int, j: int| 0 <= i <= j < gs.len() implies {
                &&& (#[trigger] gs[i]).desired_amount <= (#[trigger] gs[j]).desired_amount
                &&& gs[i].unfreeze_timestamp >= gs[j].unfreeze_timestamp
                &&& gs[i].tokens_to_release_per_stnear <= gs[j].tokens_to_release_per_stnear
            } by {
                if j == gs.len() - 1 && i < j {
                    assert(gs[i] == old_k.goals@[i]);
                    assert(old_k.goals@[i].desired_amount <= old_k.goals@[gs.len() - 2].desired_amount);
                }
            }
            assert(new_k@ == (KickstarterView { goals: old_k@.goals.push(g), ..old_k@ }));
            assert(self@ =~= old(self)@.set_kickstarter(new_k@));
        }
        Ok(id)
    }

    /// Adds a goal to a kickstarter (see `internal_create_goal`).
    pub fn create_goal(
        &mut self,
        kickstarter_id: KickstarterId,
        name: String,
        desired_amount: u128,
        unfreeze_timestamp: EpochMillis,
        tokens_to_release_per_stnear: u128,
        cliff_timestamp: EpochMillis,
        end_timestamp: EpochMillis,
        predecessor_account_id: &String,
        now: EpochMillis,
    ) -> (r: Result<GoalId, KatherineError>)
        requires
            old(self).wf(),
        ensures
            final(self).wf(),
            match old(self)@.spec_create_goal(
                kickstarter_id,
                name,
                desired_amount,
                unfreeze_timestamp,
                tokens_to_release_per_stnear,
                cliff_timestamp,
                end_timestamp,
                predecessor_account_id@,
                now,
            ) {
                Ok(v) => r == Ok::<GoalId, KatherineError>(
                    old(self)@.kickstarters[kickstarter_id as int].goals.len() as u8,
                ) && final(self)@ == v,
                Err(e) => r == Err::<GoalId, KatherineError>(e) && *final(self) == *old(self),
            },
    {
        self.internal_create_goal(
            kickstarter_id,
            name,
            desired_amount,
            unfreeze_timestamp,
            tokens_to_release_per_stnear,
            cliff_timestamp,
            end_timestamp,
            predecessor_account_id,
            now,
        )
    }

    /// Removes a kickstarter's last goal before its funding period opens.
    pub fn internal_delete_last_goal(
        &mut self,
        kickstarter_id: KickstarterId,
        predecessor_account_id: &String,
        now: EpochMillis,
    ) -> (r: Result<
        (),
        KatherineError,
    >)
        requires
            old(self).wf(),
        ensures
            final(self).wf(),
            match old(self)@.spec_delete_last_goal(kickstarter_id, predecessor_account_id@, now) {
                Ok(v) => r is Ok && final(self)@ == v,
                Err(e) => r == Err::<(), KatherineError>(e) && *final(self) == *old(self),
            },
    {
        let k = self.internal_get_kickstarter(kickstarter_id)?;
        if *predecessor_account_id != self.owner_id && *predecessor_account_id != k.owner_id {
            return Err(KatherineError::OnlyAdminOrKickstarterOwner);
        }
        k.assert_goal_status()?;
        k.assert_before_funding_period(now)?;
        let ghost old_k = self.kickstarters@[kickstarter_id as int];
        if k.goals.len() > 0 {
            self.kickstarters[kickstarter_id as usize].goals.pop();
            proof {
                let new_k = self.kickstarters@[kickstarter_id as int];
                assert(new_k@ == (KickstarterView { goals: old_k@.goals.drop_last(), ..old_k@ }));
                assert(self@ =~= old(self)@.set_kickstarter(new_k@));
            }
        }
        Ok(())
    }

    pub fn delete_last_goal(
        &mut self,
        kickstarter_id: KickstarterId,
        predecessor_account_id: &String,
        now: EpochMillis,
    ) -> (r: Result<
        (),
        KatherineError,
    >)
        requires
            old(self).wf(),
        ensures
            final(self).wf(),
            match old(self)@.spec_delete_last_goal(kickstarter_id, predecessor_account_id@, now) {
                Ok(v) => r is Ok && final(self)@ == v,
                Err(e) => r == Err::<(), KatherineError>(e) && *final(self) == *old(self),
            },
    {
        self.internal_delete_last_goal(kickstarter_id, predecessor_account_id, now)
    }
}

} // verus!
