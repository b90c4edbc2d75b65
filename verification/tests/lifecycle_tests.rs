use katherine_fundraising::actions::{Callback, PromiseAction};
use katherine_fundraising::contract::KatherineFundraising;
use katherine_fundraising::errors::KatherineError;
use katherine_fundraising::types::KickstarterId;

const NEAR: u128 = 1_000_000_000_000_000_000_000_000;
const NOW: u64 = 1_700_000_000_000;
const MINUTE: u64 = 60_000;
const GAS: u64 = 300_000_000_000_000;
const METAPOOL: &str = "meta-v2.pool.testnet";
const PRICE_AT_FREEZE: u128 = 3 * NEAR / 2;
const PRICE_AT_UNFREEZE: u128 = 2 * NEAR;

fn katherine_owner() -> String {
    "katherine.owner.near".to_string()
}

fn supporter() -> String {
    "supporter.near".to_string()
}

fn kickstarter_owner(id: u32) -> String {
    format!("owner_{}.near", id)
}

fn kickstarter_token(id: u32) -> String {
    format!("token_{}.near", id)
}

fn metapool() -> String {
    METAPOOL.to_string()
}

/// The staking pool's reply holding `price`, a JSON decimal string.
fn price_reply(price: u128) -> Option<Vec<u8>> {
    Some(format!("\"{}\"", price).into_bytes())
}

fn new_contract() -> KatherineFundraising {
    KatherineFundraising::new(katherine_owner(), NEAR, metapool(), 200)
}

/// A kickstarter open from NOW + 1 min to NOW + 11 min (hard cap 100 NEAR,
/// at most 27 tokens per stNEAR) with two goals: 10 NEAR for 5 tokens per
/// stNEAR and 20 NEAR for 10; rewards vest from NOW + 12 min to NOW + 13 min,
/// when the funds unfreeze.
fn add_kickstarter(contract: &mut KatherineFundraising) -> KickstarterId {
    let id = contract.get_total_kickstarters();
    let name = format!("kickstarter_{}", id);
    let id = contract
        .create_kickstarter(
            name.clone(),
            name,
            kickstarter_owner(id),
            NOW + MINUTE,
            NOW + 11 * MINUTE,
            kickstarter_token(id),
            100 * NEAR,
            27 * NEAR,
            &katherine_owner(),
            NOW,
        )
        .unwrap();
    let cliff = NOW + 12 * MINUTE;
    let end = NOW + 13 * MINUTE;
    assert_eq!(contract.create_goal(id, "goal_1".to_string(), 10 * NEAR, end, 5 * NEAR, cliff, end, &katherine_owner(), NOW), Ok(0));
    assert_eq!(contract.create_goal(id, "goal_2".to_string(), 20 * NEAR, end, 10 * NEAR, cliff, end, &kickstarter_owner(id), NOW), Ok(1));
    id
}

/// The kickstarter's token contract sends the 2754 tokens that back the
/// rewards of its hard cap (2700) and Katherine's 2% fee on them (54).
fn fund_rewards(contract: &mut KatherineFundraising, id: KickstarterId) {
    let r = contract.ft_on_transfer(kickstarter_owner(id), 2754 * NEAR, &id.to_string(), &kickstarter_token(id), NOW);
    assert_eq!(r, Ok(0));
    assert!(contract.kickstarters[id as usize].enough_reward_tokens);
}

fn deposit(contract: &mut KatherineFundraising, id: KickstarterId, amount: u128, now: u64) -> Result<u128, KatherineError> {
    contract.ft_on_transfer(supporter(), amount, &id.to_string(), &metapool(), now)
}

/// A kickstarter whose supporter deposited 10 NEAR, evaluated as successful
/// with its first goal at the price at freeze.
fn successful_contract() -> KatherineFundraising {
    let mut contract = new_contract();
    let id = add_kickstarter(&mut contract);
    fund_rewards(&mut contract, id);
    assert_eq!(deposit(&mut contract, id, 10 * NEAR, NOW + 5 * MINUTE), Ok(0));
    let action = contract.process_kickstarter(id, NOW + 11 * MINUTE).unwrap();
    match action {
        Some(PromiseAction::GetStNearPrice { metapool: m, then: Callback::ActivateSuccessfulKickstarterAfter { kickstarter_id, goal_id } }) => {
            assert_eq!(m, metapool());
            assert_eq!(kickstarter_id, id);
            assert_eq!(goal_id, 0);
        },
        _ => panic!("expected the query of the stNEAR price"),
    }
    assert_eq!(contract.activate_successful_kickstarter_after(id, 0, price_reply(PRICE_AT_FREEZE)), Ok(()));
    contract
}

/// The successful kickstarter with its funds unfrozen at the price at unfreeze.
fn unfrozen_contract() -> KatherineFundraising {
    let mut contract = successful_contract();
    let action = contract.unfreeze_kickstarter_funds(0, NOW + 14 * MINUTE).unwrap();
    assert!(matches!(
        action,
        Some(PromiseAction::GetStNearPrice { then: Callback::SetStnearPriceAtUnfreeze { kickstarter_id: 0 }, .. })
    ));
    assert_eq!(contract.set_stnear_price_at_unfreeze(0, None), Err(KatherineError::MetaPoolNotAvailable));
    assert_eq!(contract.set_stnear_price_at_unfreeze(0, price_reply(PRICE_AT_UNFREEZE)), Ok(()));
    assert_eq!(contract.kickstarters[0].stnear_price_at_unfreeze, Some(PRICE_AT_UNFREEZE));
    contract
}

fn transfer_amount(action: &PromiseAction) -> u128 {
    match action {
        PromiseAction::FtTransfer { amount, .. } => *amount,
        PromiseAction::FtTransferCall { amount, .. } => *amount,
        PromiseAction::GetStNearPrice { .. } => panic!("not a transfer"),
    }
}

#[test]
fn deposit_then_withdraw_gives_everything_back() {
    let mut contract = new_contract();
    let id = add_kickstarter(&mut contract);
    fund_rewards(&mut contract, id);
    assert_eq!(deposit(&mut contract, id, 10 * NEAR, NOW + 5 * MINUTE), Ok(0));
    assert_eq!(contract.kickstarters[0].total_deposited, 10 * NEAR);
    assert_eq!(contract.get_supported_projects(&supporter()), vec![0]);
    let action = contract.withdraw(10 * NEAR, id, &supporter(), NOW + 6 * MINUTE, GAS).unwrap();
    match action {
        PromiseAction::FtTransfer { token_contract, receiver_id, amount, memo, then } => {
            assert_eq!(token_contract, metapool());
            assert_eq!(receiver_id, supporter());
            assert_eq!(amount, 10 * NEAR);
            assert!(memo.is_none());
            assert!(matches!(then, Callback::ReturnTokensBeforeFreeze { kickstarter_id: 0, amount: a, .. } if a == 10 * NEAR));
        },
        _ => panic!("expected a transfer"),
    }
    assert_eq!(contract.kickstarters[0].total_deposited, 0);
    assert_eq!(contract.kickstarters[0].get_total_supporters(), 0);
    assert_eq!(contract.get_supported_projects(&supporter()), Vec::<u32>::new());
    assert_eq!(contract.return_tokens_before_freeze_callback(supporter(), id, 10 * NEAR, true), Ok(()));
    assert_eq!(contract.supporters.len(), 0);
}

#[test]
fn failed_withdraw_transfer_restores_the_deposit() {
    let mut contract = new_contract();
    let id = add_kickstarter(&mut contract);
    fund_rewards(&mut contract, id);
    deposit(&mut contract, id, 10 * NEAR, NOW + 5 * MINUTE).unwrap();
    let action = contract.withdraw(4 * NEAR, id, &supporter(), NOW + 6 * MINUTE, GAS).unwrap();
    assert_eq!(transfer_amount(&action), 4 * NEAR);
    assert_eq!(contract.kickstarters[0].get_deposit(&supporter()), Ok(6 * NEAR));
    assert_eq!(contract.return_tokens_before_freeze_callback(supporter(), id, 4 * NEAR, false), Ok(()));
    assert_eq!(contract.kickstarters[0].get_deposit(&supporter()), Ok(10 * NEAR));
    // Within the funding period the total deposited keeps the withdrawal.
    assert_eq!(contract.kickstarters[0].total_deposited, 6 * NEAR);
}

#[test]
fn withdraw_is_refused_without_enough_gas() {
    let mut contract = new_contract();
    let id = add_kickstarter(&mut contract);
    fund_rewards(&mut contract, id);
    deposit(&mut contract, id, 10 * NEAR, NOW + 5 * MINUTE).unwrap();
    let r = contract.withdraw(4 * NEAR, id, &supporter(), NOW + 6 * MINUTE, 63_000_000_000_000);
    let e = r.err().unwrap();
    assert_eq!(e, KatherineError::NotEnoughGas { required: 63_000_000_000_000 });
    assert_eq!(e.message(), "gas required 63000000000000");
    let r = contract.withdraw(0, id, &supporter(), NOW + 6 * MINUTE, GAS);
    assert!(matches!(r, Err(KatherineError::ZeroAmount)));
    let r = contract.withdraw(11 * NEAR, id, &supporter(), NOW + 6 * MINUTE, GAS);
    assert!(matches!(r, Err(KatherineError::NotAvailableAmount)));
    let r = contract.withdraw(1 * NEAR, id, &supporter(), NOW + 11 * MINUTE, GAS);
    assert!(matches!(r, Err(KatherineError::FundingPeriodOverMustEvaluate)));
    assert_eq!(contract.kickstarters[0].get_deposit(&supporter()), Ok(10 * NEAR));
}

#[test]
fn deposits_respect_the_hard_cap_and_minimum() {
    let mut contract = new_contract();
    let id = add_kickstarter(&mut contract);
    fund_rewards(&mut contract, id);
    assert_eq!(deposit(&mut contract, id, 101 * NEAR, NOW + 5 * MINUTE), Err(KatherineError::HardCapExceeded));
    let e = deposit(&mut contract, id, NEAR / 2, NOW + 5 * MINUTE).unwrap_err();
    assert_eq!(e, KatherineError::MinimumDepositAmount { minimum: NEAR });
    assert_eq!(e.message(), "minimum deposit amount is 1000000000000000000000000");
    assert_eq!(deposit(&mut contract, id, 100 * NEAR, NOW + 5 * MINUTE), Ok(0));
    assert_eq!(deposit(&mut contract, id, NEAR, NOW + 5 * MINUTE), Err(KatherineError::HardCapExceeded));
    assert_eq!(contract.kickstarters[0].total_deposited, 100 * NEAR);
    assert_eq!(
        contract.ft_on_transfer(supporter(), NEAR, "zero", &metapool(), NOW + 5 * MINUTE),
        Err(KatherineError::InvalidKickstarterId)
    );
    assert_eq!(
        contract.ft_on_transfer(supporter(), NEAR, "7", &metapool(), NOW + 5 * MINUTE),
        Err(KatherineError::UnknownKickstarterId)
    );
}

#[test]
fn robot_lists_and_processes_kickstarters() {
    let mut contract = new_contract();
    let funded = add_kickstarter(&mut contract);
    let empty = add_kickstarter(&mut contract);
    fund_rewards(&mut contract, funded);
    deposit(&mut contract, funded, 25 * NEAR, NOW + 5 * MINUTE).unwrap();
    assert!(contract.get_kickstarters_to_process(2, 10, NOW + 11 * MINUTE).is_none());
    let before_close = contract.get_kickstarters_to_process(0, 10, NOW + 10 * MINUTE).unwrap();
    assert!(before_close.successful.is_empty() && before_close.unsuccessful.is_empty());
    let status = contract.get_kickstarters_to_process(0, 10, NOW + 11 * MINUTE).unwrap();
    assert_eq!(status.successful, vec![funded]);
    assert_eq!(status.unsuccessful, vec![empty]);

    // 25 NEAR meets both goals: the second one, of larger desired amount, wins.
    let action = contract.process_kickstarter(funded, NOW + 11 * MINUTE).unwrap();
    assert!(matches!(
        action,
        Some(PromiseAction::GetStNearPrice { then: Callback::ActivateSuccessfulKickstarterAfter { kickstarter_id: 0, goal_id: 1 }, .. })
    ));
    assert!(matches!(contract.process_kickstarter(empty, NOW + 11 * MINUTE), Ok(None)));
    assert_eq!(contract.kickstarters[1].successful, Some(false));
    assert!(!contract.kickstarters[1].active);
    assert_eq!(contract.active_projects.to_vec(), vec![0]);
    assert!(matches!(contract.process_kickstarter(empty, NOW + 12 * MINUTE), Err(KatherineError::AlreadyActivated)));
    assert!(matches!(contract.process_kickstarter(funded, NOW + 10 * MINUTE), Err(KatherineError::FundingPeriodNotOver)));

    assert_eq!(contract.activate_successful_kickstarter_after(funded, 1, None), Err(KatherineError::MetaPoolNotAvailable));
    assert_eq!(
        contract.activate_successful_kickstarter_after(funded, 1, Some(b"not a price".to_vec())),
        Err(KatherineError::MetaPoolNotAvailable)
    );
    assert_eq!(contract.kickstarters[0].successful, None);
    assert_eq!(contract.activate_successful_kickstarter_after(funded, 1, price_reply(PRICE_AT_FREEZE)), Ok(()));
    let k = &contract.kickstarters[0];
    assert_eq!(k.successful, Some(true));
    assert_eq!(k.winner_goal_id, Some(1));
    // 25 stNEAR at 10 tokens per stNEAR, and a 2% fee on them.
    assert_eq!(k.total_tokens_to_release, Some(250 * NEAR));
    assert_eq!(k.katherine_fee, Some(5 * NEAR));
    assert_eq!(k.stnear_price_at_freeze, Some(PRICE_AT_FREEZE));
    assert!(contract.active_projects.to_vec().is_empty());
}

#[test]
fn activation_needs_reward_tokens() {
    let mut contract = new_contract();
    let id = add_kickstarter(&mut contract);
    contract.kickstarters[0].total_deposited = 10 * NEAR;
    assert_eq!(
        contract.activate_successful_kickstarter_after(id, 0, price_reply(PRICE_AT_FREEZE)),
        Err(KatherineError::NotEnoughRewardTokens)
    );
    assert_eq!(contract.kickstarters[0].successful, None);
}

#[test]
fn kickstarter_found_by_slug() {
    let mut contract = new_contract();
    add_kickstarter(&mut contract);
    add_kickstarter(&mut contract);
    assert_eq!(contract.get_kickstarter_id_from_slug(&"kickstarter_1".to_string()), Ok(1));
    assert_eq!(contract.get_kickstarter_id_from_slug(&"missing".to_string()), Err(KatherineError::NonexistentSlug));
    let again = contract.create_kickstarter(
        "again".to_string(),
        "kickstarter_0".to_string(),
        kickstarter_owner(9),
        NOW + MINUTE,
        NOW + 2 * MINUTE,
        kickstarter_token(9),
        NEAR,
        NEAR,
        &katherine_owner(),
        NOW,
    );
    assert_eq!(again, Err(KatherineError::SlugAlreadyExists));
    let not_admin = contract.create_kickstarter(
        "other".to_string(),
        "other".to_string(),
        kickstarter_owner(9),
        NOW + MINUTE,
        NOW + 2 * MINUTE,
        kickstarter_token(9),
        NEAR,
        NEAR,
        &supporter(),
        NOW,
    );
    assert_eq!(not_admin, Err(KatherineError::OnlyAdmin));
    assert_eq!(contract.get_total_kickstarters(), 2);
    assert_eq!(contract.get_kickstarter(1).unwrap().id, 1);
    assert!(matches!(contract.get_kickstarter(2), Err(KatherineError::UnknownKickstarterId)));
    assert!(matches!(contract.get_kickstarter(3), Err(KatherineError::IndexOutOfRange)));
    assert!(matches!(contract.get_kickstarters(3, 1), Err(KatherineError::FromIndexOutOfRange)));
    assert_eq!(contract.get_kickstarters(1, 5).unwrap().len(), 1);
    assert!(matches!(contract.get_kickstarters(1, usize::MAX), Err(KatherineError::ArithmeticOverflow)));
}

#[test]
fn goals_are_limited_and_ordered() {
    let mut contract = new_contract();
    let id = add_kickstarter(&mut contract);
    let end = NOW + 13 * MINUTE;
    let cliff = NOW + 12 * MINUTE;
    let g = |c: &mut KatherineFundraising, desired: u128, unfreeze: u64, tokens: u128, now: u64| {
        c.create_goal(id, "g".to_string(), desired, unfreeze, tokens, cliff, end, &katherine_owner(), now)
    };
    assert_eq!(g(&mut contract, 15 * NEAR, end, 10 * NEAR, NOW), Err(KatherineError::GoalDesiredAmountDecreases));
    assert_eq!(g(&mut contract, 30 * NEAR, end + 1, 10 * NEAR, NOW), Err(KatherineError::GoalFreezesLonger));
    assert_eq!(g(&mut contract, 30 * NEAR, end, 9 * NEAR, NOW), Err(KatherineError::GoalReleasesLess));
    assert_eq!(g(&mut contract, 101 * NEAR, end, 10 * NEAR, NOW), Err(KatherineError::DesiredAmountExceedsHardCap));
    assert_eq!(g(&mut contract, 30 * NEAR, end, 28 * NEAR, NOW), Err(KatherineError::TokensToReleaseExceedMax));
    assert_eq!(g(&mut contract, 30 * NEAR, end, 10 * NEAR, NOW + MINUTE), Err(KatherineError::ActionAfterFundingPeriodOpen));
    assert_eq!(g(&mut contract, 30 * NEAR, end, 10 * NEAR, NOW), Ok(2));
    assert_eq!(g(&mut contract, 40 * NEAR, end, 10 * NEAR, NOW), Ok(3));
    assert_eq!(g(&mut contract, 50 * NEAR, end, 10 * NEAR, NOW), Ok(4));
    // At most five goals.
    assert_eq!(g(&mut contract, 60 * NEAR, end, 10 * NEAR, NOW), Err(KatherineError::TooManyGoals));
    assert_eq!(contract.get_kickstarter_total_goals(id), Ok(5));
    let goal = contract.get_kickstarter_goal(id, 4).unwrap();
    assert_eq!(goal.desired_amount, 50 * NEAR);
    assert!(matches!(contract.get_kickstarter_goal(id, 5), Err(KatherineError::GoalNotFound)));
    assert_eq!(
        contract.delete_last_goal(id, &supporter(), NOW),
        Err(KatherineError::OnlyAdminOrKickstarterOwner)
    );
    assert_eq!(
        contract.create_goal(id, "g".to_string(), 60 * NEAR, end, 10 * NEAR, cliff, end, &supporter(), NOW),
        Err(KatherineError::OnlyAdminOrKickstarterOwner)
    );
    assert_eq!(contract.delete_last_goal(id, &kickstarter_owner(id), NOW), Ok(()));
    assert_eq!(contract.get_kickstarter_total_goals(id), Ok(4));
    assert_eq!(contract.delete_last_goal(id, &katherine_owner(), NOW + MINUTE), Err(KatherineError::ActionAfterFundingPeriodOpen));
}

#[test]
fn claims_vest_linearly_and_failed_claims_are_restored() {
    let mut contract = successful_contract();
    let s = supporter();
    // 10 stNEAR at 5 tokens per stNEAR: 50 tokens, released from NOW + 12 min to NOW + 13 min.
    assert_eq!(contract.get_supporter_total_rewards(&s, 0), Ok(Some(50 * NEAR)));
    assert_eq!(contract.get_supporter_available_rewards(&s, 0, NOW + 12 * MINUTE), Ok(Some(0)));
    assert_eq!(contract.get_supporter_available_rewards(&s, 0, NOW + 12 * MINUTE + 30_000), Ok(Some(25 * NEAR)));
    assert_eq!(contract.get_supporter_available_rewards(&s, 0, NOW + 13 * MINUTE), Ok(Some(50 * NEAR)));
    assert_eq!(contract.get_supporter_available_rewards(&"nobody.near".to_string(), 0, NOW + 13 * MINUTE), Ok(None));

    let at = NOW + 12 * MINUTE + 30_000;
    let e = contract.claim_kickstarter_tokens(26 * NEAR, 0, &s, at).err().unwrap();
    assert_eq!(e, KatherineError::NotEnoughTokens { available: 25 * NEAR });
    assert_eq!(e.message(), "Not enough tokens, available balance is 25000000000000000000000000.");
    assert!(matches!(contract.claim_kickstarter_tokens(0, 0, &s, at), Err(KatherineError::NoAvailableKickstarterTokens)));
    assert!(matches!(
        contract.claim_kickstarter_tokens(NEAR, 0, &s, NOW + 12 * MINUTE),
        Err(KatherineError::TokensNotReleased)
    ));
    let action = contract.claim_kickstarter_tokens(10 * NEAR, 0, &s, at).unwrap();
    match &action {
        PromiseAction::FtTransfer { token_contract, receiver_id, amount, then, .. } => {
            assert_eq!(token_contract, &kickstarter_token(0));
            assert_eq!(receiver_id, &s);
            assert_eq!(*amount, 10 * NEAR);
            assert!(matches!(then, Callback::ReturnTokensFromKickstarter { kickstarter_id: 0, .. }));
        },
        _ => panic!("expected a transfer"),
    }
    assert_eq!(contract.kickstarters[0].get_withdraw(&s), 10 * NEAR);
    assert_eq!(contract.get_supporter_available_rewards(&s, 0, at), Ok(Some(15 * NEAR)));
    assert_eq!(contract.return_tokens_from_kickstarter_callback(s.clone(), 0, 10 * NEAR, false), Ok(()));
    assert_eq!(contract.kickstarters[0].get_withdraw(&s), 0);
    assert_eq!(contract.kickstarters[0].withdraw.len(), 0);

    let action = contract.claim_all_kickstarter_tokens(0, &s, NOW + 13 * MINUTE).unwrap();
    assert_eq!(transfer_amount(&action), 50 * NEAR);
    assert_eq!(
        contract.claim_all_kickstarter_tokens(0, &"nobody.near".to_string(), NOW + 13 * MINUTE).err(),
        Some(KatherineError::NoAvailableKickstarterTokens)
    );
    assert_eq!(contract.return_tokens_from_kickstarter_callback(s.clone(), 0, 50 * NEAR, false), Ok(()));
    assert_eq!(
        contract.return_tokens_from_kickstarter_callback(s.clone(), 0, NEAR, false),
        Err(KatherineError::WithdrawAmountTooHigh)
    );
}

#[test]
fn excess_tokens_and_fee_are_withdrawn_and_restored() {
    let mut contract = successful_contract();
    let owner = kickstarter_owner(0);
    let after_close = NOW + 12 * MINUTE;
    assert!(matches!(
        contract.kickstarter_withdraw_excedent(0, &owner, NOW + 10 * MINUTE),
        Err(KatherineError::ExcedentBeforeFundingEnds)
    ));
    assert!(matches!(contract.kickstarter_withdraw_excedent(0, &supporter(), after_close), Err(KatherineError::OnlyAdmin)));
    // 2754 tokens held; 50 owed to the supporter and 1 of fee.
    let action = contract.kickstarter_withdraw_excedent(0, &owner, after_close).unwrap();
    match &action {
        PromiseAction::FtTransfer { receiver_id, amount, memo, then, .. } => {
            assert_eq!(receiver_id, &owner);
            assert_eq!(*amount, 2703 * NEAR);
            assert_eq!(memo.as_deref(), Some("withdraw excedent from kickstarter"));
            assert!(matches!(then, Callback::KickstarterWithdrawExcedent { kickstarter_id: 0, .. }));
        },
        _ => panic!("expected a transfer"),
    }
    assert_eq!(contract.kickstarters[0].available_reward_tokens, 51 * NEAR);
    assert!(matches!(contract.kickstarter_withdraw_excedent(0, &owner, after_close), Err(KatherineError::NoExcedent)));
    assert_eq!(contract.kickstarter_withdraw_excedent_callback(0, 2703 * NEAR, false), Ok(()));
    assert_eq!(contract.kickstarters[0].available_reward_tokens, 2754 * NEAR);

    assert_eq!(contract.get_admin_fee_rewards(0), Ok(NEAR));
    assert!(matches!(contract.withdraw_katherine_fee(0, &owner, after_close), Err(KatherineError::OnlyAdmin)));
    assert!(matches!(
        contract.withdraw_katherine_fee(0, &katherine_owner(), NOW + 10 * MINUTE),
        Err(KatherineError::FeeBeforeClose)
    ));
    let action = contract.withdraw_katherine_fee(0, &katherine_owner(), after_close).unwrap();
    assert_eq!(transfer_amount(&action), NEAR);
    assert_eq!(contract.kickstarters[0].katherine_fee, Some(0));
    assert!(matches!(
        contract.withdraw_katherine_fee(0, &katherine_owner(), after_close),
        Err(KatherineError::KatherineFeeIsZero)
    ));
    assert_eq!(contract.withdraw_kickstarter_fee_callback(0, NEAR, false), Ok(()));
    assert_eq!(contract.kickstarters[0].katherine_fee, Some(NEAR));
}

#[test]
fn unsuccessful_kickstarter_returns_all_tokens() {
    let mut contract = new_contract();
    let id = add_kickstarter(&mut contract);
    fund_rewards(&mut contract, id);
    deposit(&mut contract, id, 5 * NEAR, NOW + 5 * MINUTE).unwrap();
    assert!(matches!(contract.process_kickstarter(id, NOW + 11 * MINUTE), Ok(None)));
    assert_eq!(contract.get_admin_fee_rewards(id), Err(KatherineError::KickstarterWasUnsuccessful));
    let action = contract.kickstarter_withdraw_excedent(id, &kickstarter_owner(id), NOW + 12 * MINUTE).unwrap();
    assert_eq!(transfer_amount(&action), 2754 * NEAR);
    // The supporter takes its stNEAR back after the funding period.
    let action = contract.withdraw_all(id, &supporter(), NOW + 12 * MINUTE, GAS).unwrap();
    assert_eq!(transfer_amount(&action), 5 * NEAR);
    assert_eq!(contract.kickstarters[0].total_deposited, 5 * NEAR);
    assert_eq!(contract.return_tokens_before_freeze_callback(supporter(), id, 5 * NEAR, false), Ok(()));
    assert_eq!(contract.kickstarters[0].get_deposit(&supporter()), Ok(5 * NEAR));
    assert_eq!(contract.get_supported_projects(&supporter()), vec![0]);
}

#[test]
fn unfrozen_stnear_keeps_its_near_value() {
    let mut contract = successful_contract();
    let s = supporter();
    // Frozen: an estimate at the current price is needed.
    assert_eq!(
        contract.get_supporter_total_deposit_in_kickstarter(&s, 0, None),
        Err(KatherineError::StNearPriceRequired)
    );
    assert_eq!(contract.get_supporter_estimated_stnear(&s, 0, PRICE_AT_UNFREEZE), Ok(15 * NEAR / 2));
    assert_eq!(contract.get_supporter_estimated_stnear(&s, 0, NEAR), Err(KatherineError::WrongStNearPrice));
    assert!(matches!(
        contract.withdraw(NEAR, 0, &s, NOW + 12 * MINUTE, GAS),
        Err(KatherineError::FundsStillFrozen)
    ));
    assert!(matches!(contract.unfreeze_kickstarter_funds(0, NOW + 12 * MINUTE), Err(KatherineError::FundsStillFrozen)));
    assert_eq!(contract.get_kickstarters_to_unfreeze(0, 10, NOW + 14 * MINUTE), Some(vec![0]));

    let mut contract = unfrozen_contract();
    // 10 stNEAR worth 15 NEAR at 1.5 come back as 7.5 stNEAR at 2.
    assert_eq!(contract.get_supporter_total_deposit_in_kickstarter(&s, 0, None), Ok(15 * NEAR / 2));
    assert_eq!(contract.get_supporter_estimated_stnear(&s, 0, PRICE_AT_UNFREEZE), Err(KatherineError::FundsNotFrozen));
    let action = contract.withdraw_all(0, &s, NOW + 14 * MINUTE, GAS).unwrap();
    match &action {
        PromiseAction::FtTransfer { amount, then, .. } => {
            assert_eq!(*amount, 15 * NEAR / 2);
            assert!(matches!(then, Callback::ReturnTokensAfterUnfreeze { kickstarter_id: 0, .. }));
        },
        _ => panic!("expected a transfer"),
    }
    assert_eq!(contract.get_supporter_total_deposit_in_kickstarter(&s, 0, None), Ok(0));
    // Rewards are still owed, so the supporter keeps the kickstarter.
    assert_eq!(contract.get_supported_projects(&s), vec![0]);
    assert_eq!(contract.return_tokens_after_unfreeze_callback(s.clone(), 0, 15 * NEAR / 2, false), Ok(()));
    assert_eq!(contract.get_supporter_total_deposit_in_kickstarter(&s, 0, None), Ok(15 * NEAR / 2));
}

#[test]
fn project_takes_its_interest_once() {
    let mut contract = unfrozen_contract();
    let owner = kickstarter_owner(0);
    assert!(matches!(contract.withdraw_stnear_interest(0, &supporter(), NOW + 14 * MINUTE), Err(KatherineError::OnlyAdmin)));
    // 10 stNEAR minus the 7.5 owed to the supporter.
    let action = contract.withdraw_stnear_interest(0, &owner, NOW + 14 * MINUTE).unwrap();
    match &action {
        PromiseAction::FtTransferCall { token_contract, receiver_id, amount, msg, then, .. } => {
            assert_eq!(token_contract, &metapool());
            assert_eq!(receiver_id, &owner);
            assert_eq!(*amount, 5 * NEAR / 2);
            assert_eq!(msg, "kickstarter stnear withdraw");
            assert!(matches!(then, Callback::KickstarterWithdrawResolveTransfer { kickstarter_id: 0, .. }));
        },
        _ => panic!("expected a transfer call"),
    }
    assert_eq!(contract.kickstarters[0].kickstarter_withdraw, 5 * NEAR / 2);
    assert!(matches!(
        contract.withdraw_stnear_interest(0, &owner, NOW + 14 * MINUTE),
        Err(KatherineError::AmountExceedsBalance)
    ));
    assert_eq!(contract.kickstarter_withdraw_resolve_transfer(0, 5 * NEAR / 2, false), Ok(()));
    assert_eq!(contract.kickstarters[0].kickstarter_withdraw, 0);
}

#[test]
fn interest_before_unfreeze_asks_for_the_price() {
    let mut contract = successful_contract();
    let owner = kickstarter_owner(0);
    let action = contract.withdraw_stnear_interest(0, &owner, NOW + 12 * MINUTE).unwrap();
    assert!(matches!(
        action,
        PromiseAction::GetStNearPrice { then: Callback::KickstarterWithdrawCallback { kickstarter_id: 0, .. }, .. }
    ));
    assert!(matches!(
        contract.withdraw_stnear_interest(0, &owner, NOW + 14 * MINUTE),
        Err(KatherineError::UnfreezeBeforeInterestWithdraw)
    ));
    assert!(matches!(
        contract.kickstarter_withdraw_callback(0, owner.clone(), None),
        Err(KatherineError::MetaPoolNotAvailable)
    ));
    assert!(matches!(
        contract.kickstarter_withdraw_callback(0, owner.clone(), Some(PRICE_AT_FREEZE)),
        Err(KatherineError::PriceNotUpdated)
    ));
    let action = contract.kickstarter_withdraw_callback(0, owner.clone(), Some(PRICE_AT_UNFREEZE)).unwrap();
    assert_eq!(transfer_amount(&action), 5 * NEAR / 2);
    assert_eq!(
        contract.internal_restore_kickstarter_withdraw(NEAR, 0),
        Err(KatherineError::WithdrawnAmountHigherThanExpected)
    );
}

#[test]
fn supporter_dashboard_lists_details() {
    let contract = successful_contract();
    let s = supporter();
    let at = NOW + 12 * MINUTE + 30_000;
    let list = contract.get_supported_detailed_list(&s, PRICE_AT_UNFREEZE, 0, 10, at).unwrap().unwrap();
    assert_eq!(list.len(), 1);
    let d = &list[0];
    assert_eq!(d.kickstarter_id, 0);
    assert_eq!(d.supporter_deposit, 15 * NEAR / 2);
    assert_eq!(d.deposit_in_near, 15 * NEAR);
    assert_eq!(d.rewards, Some(50 * NEAR));
    assert_eq!(d.available_rewards, Some(25 * NEAR));
    assert!(!d.active);
    assert_eq!(d.successful, Some(true));
    assert!(contract.get_supported_detailed_list(&s, PRICE_AT_UNFREEZE, 2, 10, at).unwrap().is_none());
    assert_eq!(contract.get_supported_detailed_list(&s, PRICE_AT_UNFREEZE, 1, 10, at).unwrap().map(|l| l.len()), Some(0));
    assert!(contract.get_supported_detailed_list(&"nobody.near".to_string(), PRICE_AT_UNFREEZE, 0, 10, at).unwrap().is_none());
    assert_eq!(contract.get_supported_detailed_list(&s, NEAR, 0, 10, at).err(), Some(KatherineError::WrongStNearPrice));
}

#[test]
fn active_projects_split_by_funding_period() {
    let mut contract = new_contract();
    add_kickstarter(&mut contract);
    add_kickstarter(&mut contract);
    let before = contract.get_active_projects(0, 10, NOW).unwrap();
    assert_eq!(before.active.len(), 2);
    assert!(before.open.is_empty());
    let during = contract.get_active_projects(1, 10, NOW + 5 * MINUTE).unwrap();
    assert_eq!(during.open.len(), 1);
    assert_eq!(during.open[0].id, 1);
    assert!(during.active.is_empty());
    // Past the active list but not past the number of kickstarters: an empty page.
    let past = contract.get_active_projects(2, 10, NOW).unwrap();
    assert!(past.active.is_empty() && past.open.is_empty());
    assert!(contract.get_active_projects(3, 10, NOW).is_none());

    let details = contract.get_project_details(1).unwrap();
    assert_eq!(details.id, 1);
    assert_eq!(details.goals.len(), 2);
    assert_eq!(details.goals[1].desired_amount, 20 * NEAR);
    assert_eq!(details.stnear_price_at_freeze, 0);
    assert_eq!(details.token_contract_address, kickstarter_token(1));
    assert!(matches!(contract.get_project_details(2), Err(KatherineError::UnknownKickstarterId)));
}

#[test]
fn total_deposited_is_fixed_after_the_close() {
    let mut contract = new_contract();
    let id = add_kickstarter(&mut contract);
    fund_rewards(&mut contract, id);
    deposit(&mut contract, id, 5 * NEAR, NOW + 5 * MINUTE).unwrap();
    assert!(matches!(contract.process_kickstarter(id, NOW + 10 * MINUTE), Err(KatherineError::FundingPeriodNotOver)));
    assert!(contract.process_kickstarter(id, NOW + 11 * MINUTE).unwrap().is_none());
    assert_eq!(contract.kickstarters[0].successful, Some(false));
    let action = contract.withdraw(2 * NEAR, id, &supporter(), NOW + 12 * MINUTE, GAS).unwrap();
    assert_eq!(transfer_amount(&action), 2 * NEAR);
    assert_eq!(contract.kickstarters[0].total_deposited, 5 * NEAR);
    assert_eq!(deposit(&mut contract, id, NEAR, NOW + 12 * MINUTE), Err(KatherineError::NotWithinFundingPeriod));
    let action = contract.withdraw_all(id, &supporter(), NOW + 13 * MINUTE, GAS).unwrap();
    assert_eq!(transfer_amount(&action), 3 * NEAR);
    assert_eq!(contract.kickstarters[0].total_deposited, 5 * NEAR);
    assert_eq!(contract.return_tokens_before_freeze_callback(supporter(), id, 3 * NEAR, false), Ok(()));
    assert_eq!(contract.kickstarters[0].total_deposited, 5 * NEAR);
}

#[test]
fn slug_index_follows_updates() {
    let mut contract = new_contract();
    add_kickstarter(&mut contract);
    add_kickstarter(&mut contract);
    let r = contract.update_kickstarter(
        0,
        "renamed".to_string(),
        "renamed".to_string(),
        kickstarter_owner(0),
        NOW + MINUTE,
        NOW + 11 * MINUTE,
        kickstarter_token(0),
        100 * NEAR,
        27 * NEAR,
        &katherine_owner(),
        NOW,
    );
    assert_eq!(r, Ok(()));
    assert_eq!(contract.get_kickstarter_id_from_slug(&"renamed".to_string()), Ok(0));
    assert_eq!(contract.get_kickstarter_id_from_slug(&"kickstarter_0".to_string()), Err(KatherineError::NonexistentSlug));
    assert_eq!(contract.get_kickstarter_id_from_slug(&"kickstarter_1".to_string()), Ok(1));
    assert_eq!(contract.kickstarters[0].slug, "renamed".to_string());
}

#[test]
fn supporters_are_listed_in_deposit_order() {
    let mut contract = new_contract();
    let id = add_kickstarter(&mut contract);
    fund_rewards(&mut contract, id);
    for name in ["a.near", "b.near", "c.near"] {
        let r = contract.ft_on_transfer(name.to_string(), 2 * NEAR, &id.to_string(), &metapool(), NOW + 5 * MINUTE);
        assert_eq!(r, Ok(0));
    }
    let ids = contract.kickstarters[0].get_supporter_ids();
    assert_eq!(ids, vec!["a.near".to_string(), "b.near".to_string(), "c.near".to_string()]);
    assert!(contract.withdraw(NEAR, id, &"b.near".to_string(), NOW + 6 * MINUTE, GAS).is_ok());
    assert_eq!(contract.kickstarters[0].get_supporter_ids(), ids);
    assert!(contract.withdraw(2 * NEAR, id, &"a.near".to_string(), NOW + 6 * MINUTE, GAS).is_ok());
    let expected = vec!["c.near".to_string(), "b.near".to_string()];
    assert_eq!(contract.kickstarters[0].get_supporter_ids(), expected);
    // A failed transfer puts the supporter back, last.
    assert_eq!(contract.return_tokens_before_freeze_callback("a.near".to_string(), id, 2 * NEAR, false), Ok(()));
    let expected = vec!["c.near".to_string(), "b.near".to_string(), "a.near".to_string()];
    assert_eq!(contract.kickstarters[0].get_supporter_ids(), expected);
}

#[test]
fn well_formed_state_is_recognised() {
    let mut contract = new_contract();
    assert!(contract.check_wf());
    let id = add_kickstarter(&mut contract);
    fund_rewards(&mut contract, id);
    deposit(&mut contract, id, 5 * NEAR, NOW + 5 * MINUTE).unwrap();
    assert!(contract.check_wf());
    let mut moved = successful_contract();
    assert!(moved.check_wf());
    moved.kickstarters[0].id = 3;
    assert!(!moved.check_wf());
    let mut unordered = successful_contract();
    unordered.kickstarters[0].goals[1].desired_amount = NEAR;
    assert!(!unordered.check_wf());
    let mut unknown_active = new_contract();
    add_kickstarter(&mut unknown_active);
    unknown_active.active_projects.insert(7);
    assert!(!unknown_active.check_wf());
}

#[test]
fn a_claim_close_to_everything_sends_everything() {
    let mut contract = successful_contract();
    let s = supporter();
    let at = NOW + 12 * MINUTE + 30_000;
    // 25 tokens are available; a request short of them by less than a milli-NEAR takes all.
    let requested = 25 * NEAR - NEAR / 10_000;
    let action = contract.claim_kickstarter_tokens(requested, 0, &s, at).unwrap();
    match &action {
        PromiseAction::FtTransfer { amount, then, .. } => {
            assert_eq!(*amount, 25 * NEAR);
            assert!(matches!(then, Callback::ReturnTokensFromKickstarter { amount: a, .. } if *a == 25 * NEAR));
        },
        _ => panic!("expected a transfer"),
    }
    assert_eq!(contract.kickstarters[0].get_withdraw(&s), 25 * NEAR);
    assert_eq!(contract.return_tokens_from_kickstarter_callback(s.clone(), 0, 25 * NEAR, false), Ok(()));
    assert_eq!(contract.kickstarters[0].get_withdraw(&s), 0);
}

#[test]
fn a_failed_withdrawal_leaves_deposits_above_the_total() {
    let mut contract = new_contract();
    let id = add_kickstarter(&mut contract);
    fund_rewards(&mut contract, id);
    deposit(&mut contract, id, 10 * NEAR, NOW + 5 * MINUTE).unwrap();
    assert!(contract.withdraw(10 * NEAR, id, &supporter(), NOW + 6 * MINUTE, GAS).is_ok());
    assert_eq!(contract.kickstarters[0].total_deposited, 0);
    // The transfer fails: the deposit comes back, the total does not.
    assert_eq!(contract.return_tokens_before_freeze_callback(supporter(), id, 10 * NEAR, false), Ok(()));
    assert_eq!(contract.kickstarters[0].get_deposit(&supporter()), Ok(10 * NEAR));
    assert_eq!(contract.kickstarters[0].total_deposited, 0);
    // Taking it out again within the funding period would take the total below zero.
    let r = contract.withdraw(10 * NEAR, id, &supporter(), NOW + 7 * MINUTE, GAS);
    assert!(matches!(r, Err(KatherineError::ArithmeticOverflow)));
    assert!(contract.check_wf());
}
