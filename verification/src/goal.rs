//! A goal of a kickstarter: an amount of stNEAR that, once raised, decides
//! how long supporters' funds stay frozen and how many project tokens they earn.

use vstd::prelude::*;

use crate::types::{EpochMillis, GoalId, GoalJSON};

verus! {

pub struct Goal {
    pub id: GoalId,
    /// Name of the goal
    pub name: String,
    /// How many stNEAR must be deposited to reach this goal
    pub desired_amount: u128,
    /// Until when the supporters' stNEAR stays frozen
    pub unfreeze_timestamp: EpochMillis,
    /// Project tokens released per stNEAR deposited (scaled by one NEAR)
    pub tokens_to_release_per_stnear: u128,
    /// Start of the linear release of project tokens
    pub cliff_timestamp: EpochMillis,
    /// End of the linear release of project tokens
    pub end_timestamp: EpochMillis,
}

impl Clone for Goal {
    fn clone(&self) -> (r: Self)
        ensures
            r == *self,
    {
        Goal {
            id: self.id,
            name: self.name.clone(),
            desired_amount: self.desired_amount,
            unfreeze_timestamp: self.unfreeze_timestamp,
            tokens_to_release_per_stnear: self.tokens_to_release_per_stnear,
            cliff_timestamp: self.cliff_timestamp,
            end_timestamp: self.end_timestamp,
        }
    }
}

impl Goal {
    pub fn to_json(&self) -> (r: GoalJSON)
        ensures
            r.id == self.id,
            r.name@ == self.name@,
            r.desired_amount == self.desired_amount,
            r.unfreeze_timestamp == self.unfreeze_timestamp,
            r.tokens_to_release_per_stnear == self.tokens_to_release_per_stnear,
            r.cliff_timestamp == self.cliff_timestamp,
            r.end_timestamp == self.end_timestamp,
    {
        GoalJSON {
            id: self.id,
            name: self.name.clone(),
            desired_amount: self.desired_amount,
            unfreeze_timestamp: self.unfreeze_timestamp,
            tokens_to_release_per_stnear: self.tokens_to_release_per_stnear,
            cliff_timestamp: self.cliff_timestamp,
            end_timestamp: self.end_timestamp,
        }
    }
}

} // verus!
