use katherine_fundraising::contract::KatherineFundraising;
use katherine_fundraising::errors::KatherineError;

const NEAR: u128 = 1_000_000_000_000_000_000_000_000;
const NOW: u64 = 1_700_000_000_000;
const MINUTE: u64 = 60_000;
const GAS: u64 = 300_000_000_000_000;

fn admin() -> String {
    "admin.near".to_string()
}

fn owner() -> String {
    "project.near".to_string()
}

fn token() -> String {
    "token.near".to_string()
}

fn pool() -> String {
    "pool.near".to_string()
}

/// The staking pool's reply holding `price`, a JSON decimal string.
fn price_reply(price: u128) -> Option<Vec<u8>> {
    Some(format!("\"{}\"", price).into_bytes())
}

/// A contract with one kickstarter open from NOW + 1 min to NOW + 11 min and
/// one goal of 10 NEAR, whose rewards vest until NOW + 13 min, when the
/// funds unfreeze.
fn contract_with_kickstarter() -> KatherineFundraising {
    let mut c = KatherineFundraising::new(admin(), NEAR, pool(), 200);
    let id = c
        .create_kickstarter(
            "k".to_string(),
            "k".to_string(),
            owner(),
            NOW + MINUTE,
            NOW + 11 * MINUTE,
            token(),
            100 * NEAR,
            27 * NEAR,
            &admin(),
            NOW,
        )
        .unwrap();
    let end = NOW + 13 * MINUTE;
    assert_eq!(c.create_goal(id, "g".to_string(), 10 * NEAR, end, 5 * NEAR, NOW + 12 * MINUTE, end, &admin(), NOW), Ok(0));
    c
}

/// The kickstarter funded, supported with 10 NEAR, and evaluated as
/// successful at a price of 1.5 NEAR per stNEAR.
fn successful() -> KatherineFundraising {
    let mut c = contract_with_kickstarter();
    assert_eq!(c.ft_on_transfer(owner(), 2754 * NEAR, "0", &token(), NOW), Ok(0));
    assert_eq!(c.ft_on_transfer("s.near".to_string(), 10 * NEAR, "0", &pool(), NOW + 5 * MINUTE), Ok(0));
    assert!(c.process_kickstarter(0, NOW + 11 * MINUTE).unwrap().is_some());
    assert_eq!(c.activate_successful_kickstarter_after(0, 0, price_reply(3 * NEAR / 2)), Ok(()));
    c
}

#[test]
fn kickstarters_are_never_deleted() {
    let mut c = contract_with_kickstarter();
    let e = c.delete_kickstarter(0).unwrap_err();
    assert_eq!(e, KatherineError::KickstarterMustNotBeDeleted { id: 0 });
    assert_eq!(e.message(), "Kickstarter 0 must not be deleted!");
    assert_eq!(c.get_total_kickstarters(), 1);
}

#[test]
fn funding_period_must_be_in_order() {
    let mut c = contract_with_kickstarter();
    let early = c.create_kickstarter(
        "a".to_string(),
        "a".to_string(),
        owner(),
        NOW - 1,
        NOW + MINUTE,
        token(),
        NEAR,
        NEAR,
        &admin(),
        NOW,
    );
    assert_eq!(early, Err(KatherineError::IncorrectOpenTimestamp));
    let reversed = c.create_kickstarter(
        "b".to_string(),
        "b".to_string(),
        owner(),
        NOW + 2 * MINUTE,
        NOW + MINUTE,
        token(),
        NEAR,
        NEAR,
        &admin(),
        NOW,
    );
    assert_eq!(reversed, Err(KatherineError::IncorrectCloseTimestamp));
    assert_eq!(c.get_total_kickstarters(), 1);
}

#[test]
fn goals_are_fixed_once_a_goal_won() {
    let mut c = successful();
    let end = NOW + 13 * MINUTE;
    assert_eq!(
        c.create_goal(0, "late".to_string(), 20 * NEAR, end, 5 * NEAR, NOW + 12 * MINUTE, end, &owner(), NOW),
        Err(KatherineError::AlreadyHasWinningGoal)
    );
}

#[test]
fn questions_about_missing_records() {
    let mut c = contract_with_kickstarter();
    assert_eq!(c.kickstarters[0].get_winner_goal().err(), Some(KatherineError::NoGoalDefined));
    assert_eq!(
        c.get_supporter_total_deposit_in_kickstarter(&"nobody.near".to_string(), 0, None),
        Err(KatherineError::SupporterNotInKickstarter)
    );
    assert_eq!(c.kickstarters[0].convert_stnear_to_near(NEAR), Err(KatherineError::ConversionRateNotEstablished));
    c.kickstarters[0].update_supporter_deposits(&"s.near".to_string(), NEAR).unwrap();
    assert_eq!(
        c.kickstarters[0].get_after_unfreeze_deposits(&"s.near".to_string()),
        Err(KatherineError::PriceAtFreezeNotDefined)
    );
    assert_eq!(
        c.activate_successful_kickstarter_after(0, 5, price_reply(NEAR)),
        Err(KatherineError::NoAchievedGoal)
    );
}

#[test]
fn unfrozen_funds_need_the_price() {
    let mut c = successful();
    let r = c.withdraw(NEAR, 0, &"s.near".to_string(), NOW + 14 * MINUTE, GAS);
    assert!(matches!(r, Err(KatherineError::PriceAtUnfreezeNotDefined)));
    assert_eq!(
        c.kickstarters[0].get_after_unfreeze_deposits(&"s.near".to_string()),
        Err(KatherineError::PriceAtUnfreezeNotDefined)
    );
    assert_eq!(c.kickstarters[0].convert_stnear_to_near(3 * NEAR), Ok(2));
}

#[test]
fn unevaluated_and_unsuccessful_kickstarters() {
    let mut c = contract_with_kickstarter();
    let r = c.kickstarter_withdraw_excedent(0, &owner(), NOW + 12 * MINUTE);
    assert!(matches!(r, Err(KatherineError::NotEvaluated)));
    assert!(matches!(c.process_kickstarter(0, NOW + 11 * MINUTE), Ok(None)));
    let r = c.withdraw_stnear_interest(0, &owner(), NOW + 12 * MINUTE);
    assert!(matches!(r, Err(KatherineError::KickstarterIsUnsuccessful)));
    // Nothing to withdraw for an account without a deposit.
    let r = c.withdraw_all(0, &"s.near".to_string(), NOW + 12 * MINUTE, GAS);
    assert!(matches!(r, Err(KatherineError::SupporterNotInKickstarter)));
}
