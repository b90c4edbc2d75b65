//! The contract's state and its bookkeeping helpers.

use vstd::prelude::*;

use crate::collections::{AccountMap, IdSet};
use crate::constants::{BASIS_POINTS, NEAR};
use crate::errors::KatherineError;
use crate::kickstarter::{Kickstarter, KickstarterView};
use crate::supporter::{empty_supporter, Supporter, SupporterView};
use crate::types::{BalanceJSON, BasisPoints, EpochMillis, KickstarterId};
use crate::utils::{get_linear_release_proportion, proportional_result, spec_proportional_result};

verus! {

pub struct KatherineFundraising {
    pub owner_id: String,
    pub supporters: AccountMap<Supporter>,
    pub kickstarters: Vec<Kickstarter>,
    pub kickstarter_id_by_slug: AccountMap<KickstarterId>,
    pub total_available: u128,
    /// Minimum stNEAR accepted in one deposit
    pub min_deposit_amount: u128,
    /// The staking pool whose token (stNEAR) supporters deposit
    pub metapool_contract_address: String,
    /// Katherine's fee, in basis points of the project tokens released
    pub katherine_fee_percent: BasisPoints,
    pub max_goals_per_kickstarter: u8,
    /// Kickstarters waiting for funding or evaluation, in the order of
    /// an append-only list with swap-removal
    pub active_projects: IdSet,
}

#[verifier::ext_equal]
pub struct KatherineView {
    pub owner_id: Seq<char>,
    pub supporters: Map<Seq<char>, SupporterView>,
    pub kickstarters: Seq<KickstarterView>,
    pub kickstarter_id_by_slug: Map<Seq<char>, KickstarterId>,
    pub total_available: u128,
    pub min_deposit_amount: u128,
    pub metapool_contract_address: Seq<char>,
    pub katherine_fee_percent: BasisPoints,
    pub max_goals_per_kickstarter: u8,
    pub active_projects: Seq<u32>,
}

impl View for KatherineFundraising {
    type V = KatherineView;

    open spec fn view(&self) -> KatherineView {
        KatherineView {
            owner_id: self.owner_id@,
            supporters: self.supporters@.map_values(|s: Supporter| s@),
            kickstarters: self.kickstarters@.map_values(|k: Kickstarter| k@),
            kickstarter_id_by_slug: self.kickstarter_id_by_slug@,
            total_available: self.total_available,
            min_deposit_amount: self.min_deposit_amount,
            metapool_contract_address: self.metapool_contract_address@,
            katherine_fee_percent: self.katherine_fee_percent,
            max_goals_per_kickstarter: self.max_goals_per_kickstarter,
            active_projects: self.active_projects@,
        }
    }
}

impl KatherineView {
    /// The state with kickstarter `k` stored under its id.
    pub open spec fn set_kickstarter(self, k: KickstarterView) -> KatherineView {
        KatherineView { kickstarters: self.kickstarters.update(k.id as int, k), ..self }
    }

    /// The record of `supporter`, or an empty one.
    pub open spec fn supporter_or_new(self, supporter: Seq<char>) -> SupporterView {
        if self.supporters.contains_key(supporter) {
            self.supporters[supporter]
        } else {
            empty_supporter()
        }
    }

    /// The state with `s` stored as the record of `supporter`.
    pub open spec fn put_supporter(self, supporter: Seq<char>, s: SupporterView) -> KatherineView {
        KatherineView { supporters: self.supporters.insert(supporter, s), ..self }
    }

    /// Every kickstarter is stored at the position of its id, and a
    /// successful one has its winning goal, its fee, its tokens to release
    /// and its price at freeze; the slug index agrees with the kickstarters.
    pub open spec fn valid(self) -> bool {
        &&& forall|i: int| 0 <= i < self.kickstarters.len() ==> (#[trigger] self.kickstarters[i]).id == i
            && self.kickstarters[i].valid()
        &&& self.slugs_match()
    }

    /// The slug index and the kickstarters agree: each indexed slug names an
    /// existing kickstarter with that slug, and each kickstarter's slug leads
    /// back to its id.
    pub open spec fn slugs_match(self) -> bool {
        &&& forall|s: Seq<char>| #[trigger]
            self.kickstarter_id_by_slug.contains_key(s) ==> {
                &&& self.kickstarter_id_by_slug[s] < self.kickstarters.len()
                &&& self.kickstarters[self.kickstarter_id_by_slug[s] as int].slug == s
            }
        &&& forall|i: int|
            0 <= i < self.kickstarters.len() ==> {
                &&& self.kickstarter_id_by_slug.contains_key(#[trigger] self.kickstarters[i].slug)
                &&& self.kickstarter_id_by_slug[self.kickstarters[i].slug] == i
            }
    }

    /// The kickstarter with id `id`, or the error for an unknown id.
    pub open spec fn kickstarter(self, id: KickstarterId) -> Result<KickstarterView, KatherineError> {
        if id < self.kickstarters.len() {
            Ok(self.kickstarters[id as int])
        } else {
            Err(KatherineError::UnknownKickstarterId)
        }
    }
}

/// A supporter record whose ids are distinct and name existing kickstarters.
pub open spec fn supporter_wf(s: Supporter, n: int) -> bool {
    &&& s.wf()
    &&& forall|j: int| 0 <= j < s@.kickstarters.len() ==> #[trigger] s@.kickstarters[j] < n
}

impl KatherineFundraising {
    /// Every kickstarter is stored at its id and is consistent; active ids and
    /// the ids in supporter records name existing kickstarters.
    pub open spec fn wf(&self) -> bool {
        &&& self.supporters.wf()
        &&& self.kickstarter_id_by_slug.wf()
        &&& self.active_projects.wf()
        &&& self.max_goals_per_kickstarter <= 254
        &&& self.kickstarters@.len() <= u32::MAX
        &&& forall|i: int|
            0 <= i < self.kickstarters@.len() ==> {
                &&& (#[trigger] self.kickstarters@[i]).id == i
                &&& self.kickstarters@[i].wf()
                &&& self.kickstarters@[i].goals@.len() <= self.max_goals_per_kickstarter
            }
        &&& forall|i: int|
            0 <= i < self.active_projects@.len() ==> #[trigger] self.active_projects@[i]
                < self.kickstarters@.len()
        &&& forall|s: Seq<char>| #[trigger]
            self.supporters@.contains_key(s) ==> supporter_wf(
                self.supporters@[s],
                self.kickstarters@.len() as int,
            )
        &&& self.slugs_wf()
    }

    /// The slug index and the kickstarters agree: each indexed slug names an
    /// existing kickstarter with that slug, and each kickstarter's slug leads
    /// back to its id.
    pub open spec fn slugs_wf(&self) -> bool {
        &&& forall|s: Seq<char>| #[trigger]
            self.kickstarter_id_by_slug@.contains_key(s) ==> {
                &&& self.kickstarter_id_by_slug@[s] < self.kickstarters@.len()
                &&& self.kickstarters@[self.kickstarter_id_by_slug@[s] as int].slug@ == s
            }
        &&& forall|i: int|
            0 <= i < self.kickstarters@.len() ==> {
                &&& self.kickstarter_id_by_slug@.contains_key(#[trigger] self.kickstarters@[i].slug@)
                &&& self.kickstarter_id_by_slug@[self.kickstarters@[i].slug@] == i
            }
    }

    /// A change that keeps the slug index and every kickstarter's slug keeps
    /// the two in step.
    pub proof fn lemma_slugs_wf_kept(&self, before: &Self)
        requires
            before.slugs_wf(),
            self.kickstarter_id_by_slug@ == before.kickstarter_id_by_slug@,
            self.kickstarters@.len() == before.kickstarters@.len(),
            forall|i: int|
                0 <= i < self.kickstarters@.len() ==> #[trigger] self.kickstarters@[i].slug@
                    == before.kickstarters@[i].slug@,
        ensures
            self.slugs_wf(),
    {
        assert forall|s: Seq<char>| #[trigger] self.kickstarter_id_by_slug@.contains_key(s) implies {
            &&& self.kickstarter_id_by_slug@[s] < self.kickstarters@.len()
            &&& self.kickstarters@[self.kickstarter_id_by_slug@[s] as int].slug@ == s
        } by {
            assert(before.kickstarter_id_by_slug@.contains_key(s));
            let j = before.kickstarter_id_by_slug@[s] as int;
            assert(self.kickstarters@[j].slug@ == before.kickstarters@[j].slug@);
        }
        assert forall|i: int| 0 <= i < self.kickstarters@.len() implies {
            &&& self.kickstarter_id_by_slug@.contains_key(#[trigger] self.kickstarters@[i].slug@)
            &&& self.kickstarter_id_by_slug@[self.kickstarters@[i].slug@] == i
        } by {
            assert(self.kickstarters@[i].slug@ == before.kickstarters@[i].slug@);
            assert(before.kickstarter_id_by_slug@.contains_key(before.kickstarters@[i].slug@));
        }
    }

    /// Whether the slug index and the kickstarters agree.
    fn check_slugs(&self) -> (r: bool)
        requires
            self.kickstarter_id_by_slug.wf(),
        ensures
            r ==> self.slugs_wf(),
    {
        let n = self.kickstarters.len();
        let mut i: usize = 0;
        while i < n
            invariant
                self.kickstarter_id_by_slug.wf(),
                n == self.kickstarters@.len(),
                i <= n,
                forall|a: int|
                    0 <= a < i ==> {
                        &&& self.kickstarter_id_by_slug@.contains_key(#[trigger] self.kickstarters@[a].slug@)
                        &&& self.kickstarter_id_by_slug@[self.kickstarters@[a].slug@] == a
                    },
            decreases n - i,
        {
            match self.kickstarter_id_by_slug.get(&self.kickstarters[i].slug) {
                Some(id) => if *id as usize != i {
                    return false;
                },
                None => return false,
            }
            i = i + 1;
        }
        let keys = self.kickstarter_id_by_slug.keys();
        let m = keys.len();
        let mut j: usize = 0;
        while j < m
            invariant
                self.kickstarter_id_by_slug.wf(),
                n == self.kickstarters@.len(),
                keys@.map_values(|k: String| k@) == self.kickstarter_id_by_slug.key_seq(),
                m == keys@.len(),
                j <= m,
                forall|b: int|
                    0 <= b < j ==> {
                        let s = #[trigger] self.kickstarter_id_by_slug.key_seq()[b];
                        &&& self.kickstarter_id_by_slug@[s] < n
                        &&& self.kickstarters@[self.kickstarter_id_by_slug@[s] as int].slug@ == s
                    },
            decreases m - j,
        {
            proof {
                assert(keys@.map_values(|k: String| k@)[j as int] == keys@[j as int]@);
            }
            let id = *self.kickstarter_id_by_slug.value_at(j);
            if id as usize >= n {
                return false;
            }
            if self.kickstarters[id as usize].slug != keys[j] {
                return false;
            }
            j = j + 1;
        }
        proof {
            self.kickstarter_id_by_slug.lemma_key_seq_dom();
            assert forall|s: Seq<char>| #[trigger] self.kickstarter_id_by_slug@.contains_key(s) implies {
                &&& self.kickstarter_id_by_slug@[s] < self.kickstarters@.len()
                &&& self.kickstarters@[self.kickstarter_id_by_slug@[s] as int].slug@ == s
            } by {
                assert(self.kickstarter_id_by_slug.key_seq().contains(s));
                let b = self.kickstarter_id_by_slug.key_seq().index_of(s);
                assert(0 <= b < m && self.kickstarter_id_by_slug.key_seq()[b] == s);
            }
        }
        true
    }

    /// Whether the state is well formed, as it must be when read back from
    /// storage.
    pub fn check_wf(&self) -> (r: bool)
        ensures
            r ==> self.wf(),
    {
        if !(self.supporters.check_wf() && self.kickstarter_id_by_slug.check_wf() && self.active_projects.check_wf()) {
            return false;
        }
        if self.max_goals_per_kickstarter > 254 {
            return false;
        }
        let n = self.kickstarters.len();
        if n as u64 > 4294967295u64 {
            return false;
        }
        let max_goals = self.max_goals_per_kickstarter as usize;
        let mut i: usize = 0;
        while i < n
            invariant
                n == self.kickstarters@.len(),
                max_goals == self.max_goals_per_kickstarter,
                i <= n,
                forall|a: int|
                    0 <= a < i ==> {
                        &&& (#[trigger] self.kickstarters@[a]).id == a
                        &&& self.kickstarters@[a].wf()
                        &&& self.kickstarters@[a].goals@.len() <= self.max_goals_per_kickstarter
                    },
            decreases n - i,
        {
            let k = &self.kickstarters[i];
            if !(k.id as usize == i && k.check_wf() && k.goals.len() <= max_goals) {
                return false;
            }
            i = i + 1;
        }
        let active = self.active_projects.to_vec();
        let mut i: usize = 0;
        while i < active.len()
            invariant
                n == self.kickstarters@.len(),
                active@ == self.active_projects@,
                i <= active@.len(),
                forall|a: int| 0 <= a < i ==> #[trigger] self.active_projects@[a] < n,
            decreases active@.len() - i,
        {
            if active[i] as usize >= n {
                return false;
            }
            i = i + 1;
        }
        let m = self.supporters.len();
        let mut i: usize = 0;
        while i < m
            invariant
                self.supporters.wf(),
                n == self.kickstarters@.len(),
                m == self.supporters.key_seq().len(),
                i <= m,
                forall|a: int|
                    0 <= a < i ==> supporter_wf(
                        #[trigger] self.supporters@[self.supporters.key_seq()[a]],
                        n as int,
                    ),
            decreases m - i,
        {
            let s = self.supporters.value_at(i);
            if !s.kickstarters.check_wf() {
                return false;
            }
            let ids = s.kickstarters.to_vec();
            let mut j: usize = 0;
            while j < ids.len()
                invariant
                    n == self.kickstarters@.len(),
                    ids@ == s@.kickstarters,
                    j <= ids@.len(),
                    forall|b: int| 0 <= b < j ==> #[trigger] s@.kickstarters[b] < n,
                decreases ids@.len() - j,
            {
                if ids[j] as usize >= n {
                    return false;
                }
                j = j + 1;
            }
            i = i + 1;
        }
        if !self.check_slugs() {
            return false;
        }
        proof {
            self.supporters.lemma_key_seq_dom();
            assert forall|s: Seq<char>| #[trigger] self.supporters@.contains_key(s) implies supporter_wf(
                self.supporters@[s],
                self.kickstarters@.len() as int,
            ) by {
                assert(self.supporters.key_seq().contains(s));
                let a = self.supporters.key_seq().index_of(s);
                assert(0 <= a < m && self.supporters.key_seq()[a] == s);
            }
        }
        true
    }

    /// A new contract with no kickstarters and no supporters.
    pub fn new(
        owner_id: String,
        min_deposit_amount: BalanceJSON,
        metapool_contract_address: String,
        katherine_fee_percent: BasisPoints,
    ) -> (r: Self)
        ensures
            r.wf(),
            r@ == (KatherineView {
                owner_id: owner_id@,
                supporters: Map::empty(),
                kickstarters: Seq::empty(),
                kickstarter_id_by_slug: Map::empty(),
                total_available: 0,
                min_deposit_amount,
                metapool_contract_address: metapool_contract_address@,
                katherine_fee_percent,
                max_goals_per_kickstarter: 5,
                active_projects: Seq::empty(),
            }),
    {
        let r = KatherineFundraising {
            owner_id,
            supporters: AccountMap::new(),
            kickstarters: Vec::new(),
            kickstarter_id_by_slug: AccountMap::new(),
            total_available: 0,
            min_deposit_amount,
            metapool_contract_address,
            katherine_fee_percent,
            max_goals_per_kickstarter: 5,
            active_projects: IdSet::new(),
        };
        assert(r@.supporters =~= Map::empty());
        assert(r@.kickstarters =~= Seq::empty());
        r
    }

    /// The state of a well-formed contract is valid.
    pub proof fn lemma_wf_valid(&self)
        requires
            self.wf(),
        ensures
            self@.valid(),
    {
        assert forall|i: int| 0 <= i < self@.kickstarters.len() implies (#[trigger] self@.kickstarters[i]).id == i
            && self@.kickstarters[i].valid() by {
            assert(self.kickstarters@[i].wf());
            self.kickstarters@[i].deposits.lemma_key_seq_dom();
        }
    }

    /// Only the contract's owner may proceed.
    pub fn assert_only_admin(&self, predecessor_account_id: &String) -> (r: Result<(), KatherineError>)
        ensures
            r is Ok <==> predecessor_account_id@ == self.owner_id@,
            r matches Err(e) ==> e == KatherineError::OnlyAdmin,
    {
        if *predecessor_account_id == self.owner_id {
            Ok(())
        } else {
            Err(KatherineError::OnlyAdmin)
        }
    }

    /// Same as `assert_only_admin`.
    pub fn only_admin(&self, predecessor_account_id: &String) -> (r: Result<(), KatherineError>)
        ensures
            r is Ok <==> predecessor_account_id@ == self.owner_id@,
            r matches Err(e) ==> e == KatherineError::OnlyAdmin,
    {
        self.assert_only_admin(predecessor_account_id)
    }

    /// Project tokens earned by the kickstarter's total deposit at
    /// `tokens_to_release_per_stnear` tokens per stNEAR.
    pub fn calculate_total_tokens_to_release(&self, kickstarter: &Kickstarter, tokens_to_release_per_stnear: u128) -> (r:
        Result<u128, KatherineError>)
        ensures
            r == spec_proportional_result(kickstarter.total_deposited, tokens_to_release_per_stnear, NEAR),
    {
        proportional_result(kickstarter.total_deposited, tokens_to_release_per_stnear, NEAR)
    }

    /// Katherine's fee on `total_tokens_to_release`.
    pub fn calculate_katherine_fee(&self, total_tokens_to_release: u128) -> (r: Result<u128, KatherineError>)
        ensures
            r == spec_proportional_result(
                self.katherine_fee_percent as u128,
                total_tokens_to_release,
                BASIS_POINTS,
            ),
    {
        proportional_result(self.katherine_fee_percent as u128, total_tokens_to_release, BASIS_POINTS)
    }

    /// The most project tokens the kickstarter may have to release: its hard
    /// cap at its maximum tokens per stNEAR.
    pub fn calculate_max_tokens_to_release(&self, kickstarter: &Kickstarter) -> (r: Result<u128, KatherineError>)
        ensures
            r == spec_proportional_result(
                kickstarter.deposits_hard_cap,
                kickstarter.max_tokens_to_release_per_stnear,
                NEAR,
            ),
    {
        proportional_result(kickstarter.deposits_hard_cap, kickstarter.max_tokens_to_release_per_stnear, NEAR)
    }

    /// The supporter's record, or a fresh one.
    pub fn internal_get_supporter(&self, supporter_id: &String) -> (r: Supporter)
        requires
            self.wf(),
        ensures
            r@ == self@.supporter_or_new(supporter_id@),
            supporter_wf(r, self.kickstarters@.len() as int),
    {
        match self.supporters.get(supporter_id) {
            Some(s) => s.clone(),
            None => Supporter::new(supporter_id),
        }
    }

    /// Project tokens the supporter's deposit earns at
    /// `tokens_to_release_per_stnear`, minus those already claimed.
    pub fn internal_get_supporter_rewards(
        &self,
        supporter_id: &String,
        kickstarter: &Kickstarter,
        tokens_to_release_per_stnear: u128,
    ) -> (r: Result<u128, KatherineError>)
        requires
            kickstarter.wf(),
        ensures
            r == kickstarter@.spec_supporter_rewards(supporter_id@, tokens_to_release_per_stnear),
    {
        let deposit = kickstarter.get_deposit(supporter_id)?;
        let earned = proportional_result(deposit, tokens_to_release_per_stnear, NEAR)?;
        let claimed = kickstarter.get_withdraw(supporter_id);
        if earned >= claimed {
            Ok(earned - claimed)
        } else {
            Err(KatherineError::ArithmeticOverflow)
        }
    }

    /// Project tokens the supporter may claim at time `now`.
    pub fn internal_get_available_rewards(&self, supporter_id: &String, kickstarter: &Kickstarter, now: EpochMillis) -> (r:
        Result<u128, KatherineError>)
        requires
            kickstarter.wf(),
        ensures
            r == kickstarter@.spec_available_rewards(supporter_id@, now),
    {
        let goal = kickstarter.get_winner_goal()?;
        let deposit = kickstarter.get_deposit(supporter_id)?;
        let total_supporter_rewards = proportional_result(deposit, goal.tokens_to_release_per_stnear, NEAR)?;
        let released = get_linear_release_proportion(
            total_supporter_rewards,
            goal.cliff_timestamp,
            goal.end_timestamp,
            now,
        );
        Ok(released.saturating_sub(kickstarter.get_withdraw(supporter_id)))
    }

    pub fn internal_get_kickstarter(&self, kickstarter_id: KickstarterId) -> (r: Result<&Kickstarter, KatherineError>)
        requires
            self.wf(),
        ensures
            match r {
                Ok(k) => kickstarter_id < self.kickstarters@.len() && *k == self.kickstarters@[kickstarter_id as int],
                Err(e) => kickstarter_id >= self.kickstarters@.len() && e == KatherineError::UnknownKickstarterId,
            },
    {
        if (kickstarter_id as usize) < self.kickstarters.len() {
            Ok(&self.kickstarters[kickstarter_id as usize])
        } else {
            Err(KatherineError::UnknownKickstarterId)
        }
    }
}

} // verus!
