//! Plain data exchanged with callers: the JSON views of the contract and the
//! records of tickets and IOU notes.

use vstd::prelude::*;

verus! {

/// A token amount as it travels in JSON.
pub type BalanceJSON = u128;

pub type U128String = u128;

pub type U64String = u64;

pub type KickstarterId = u32;

pub type KickstarterIdJSON = u32;

pub type GoalId = u8;

pub type GoalIdJSON = u8;

/// Milliseconds since the UNIX epoch.
pub type EpochMillis = u64;

/// Hundredths of a percent: 10_000 basis points are 100%.
pub type BasisPoints = u32;

pub type SupporterId = String;

pub type SupporterIdJSON = String;

/// Kickstarter id and supporter id joined in one string.
pub type KickstarterSupporterDx = String;

pub type IOUNoteId = u64;

pub struct KickstarterJSON {
    pub id: KickstarterIdJSON,
    pub total_supporters: u32,
    pub total_deposited: BalanceJSON,
    pub open_timestamp: EpochMillis,
    pub close_timestamp: EpochMillis,
}

pub struct GoalJSON {
    pub id: GoalIdJSON,
    pub name: String,
    pub desired_amount: BalanceJSON,
    pub unfreeze_timestamp: EpochMillis,
    pub tokens_to_release_per_stnear: BalanceJSON,
    pub cliff_timestamp: EpochMillis,
    pub end_timestamp: EpochMillis,
}

pub struct KickstarterDetailsJSON {
    pub id: KickstarterIdJSON,
    pub total_supporters: u32,
    pub total_deposited: BalanceJSON,
    pub open_timestamp: EpochMillis,
    pub close_timestamp: EpochMillis,
    pub token_contract_address: String,
    pub stnear_price_at_freeze: BalanceJSON,
    pub stnear_price_at_unfreeze: BalanceJSON,
    pub goals: Vec<GoalJSON>,
    pub active: bool,
    pub successful: Option<bool>,
    pub winner_goal_id: Option<u8>,
    pub enough_reward_tokens: bool,
}

/// Kickstarters whose funding period is over and that wait for evaluation,
/// split by whether one of their goals was met.
pub struct KickstarterStatusJSON {
    pub successful: Vec<KickstarterIdJSON>,
    pub unsuccessful: Vec<KickstarterIdJSON>,
}

/// Active kickstarters split into those within their funding period (`open`)
/// and the others (`active`).
pub struct ActiveKickstarterJSON {
    pub active: Vec<KickstarterJSON>,
    pub open: Vec<KickstarterJSON>,
}

pub struct KickstarterSupporterJSON {
    pub supporter_id: SupporterIdJSON,
    pub kickstarter_id: KickstarterIdJSON,
    pub total_deposited: BalanceJSON,
}

pub struct SupporterDetailedJSON {
    pub kickstarter_id: KickstarterIdJSON,
    pub supporter_deposit: BalanceJSON,
    pub deposit_in_near: BalanceJSON,
    pub rewards: Option<BalanceJSON>,
    pub available_rewards: Option<BalanceJSON>,
    pub active: bool,
    pub successful: Option<bool>,
}

/// What an IOU note is denominated in.
pub enum IOUNoteDenomination {
    NEAR,
    KickstarterToken(String),
}

/// A promise to deliver `amount` to a supporter, released linearly between
/// `cliff_timestamp` and `end_timestamp`.
pub struct IOUNote {
    pub id: IOUNoteId,
    pub amount: u128,
    pub denomination: IOUNoteDenomination,
    pub supporter_id: String,
    pub kickstarter_id: KickstarterId,
    pub cliff_timestamp: u64,
    pub end_timestamp: u64,
}

/// A supporter's deposit with its value in NEAR at the time of the deposit.
pub struct Ticket {
    pub supporter_id: String,
    pub stnear_amount: u128,
    pub spot_near_value: u128,
}

/// The account summary that the staking pool reports for an account.
pub struct GetAccountInfoResult {
    pub account_id: String,
    pub available: u128,
    pub st_near: u128,
    pub valued_st_near: u128,
    pub meta: u128,
    pub realized_meta: u128,
    pub unstaked: u128,
    pub unstaked_requested_unlock_epoch: u64,
    pub unstake_full_epochs_wait_left: u16,
    pub can_withdraw: bool,
    pub total: u128,
    pub trip_start: u64,
    pub trip_start_stnear: u128,
    pub trip_accum_stakes: u128,
    pub trip_accum_unstakes: u128,
    pub trip_rewards: u128,
    pub nslp_shares: u128,
    pub nslp_share_value: u128,
    pub nslp_share_bp: u16,
}

} // verus!
