use katherine_fundraising::collections::{AccountMap, IdSet};
use katherine_fundraising::constants::{Keys, ONE_MILLI_NEAR};
use katherine_fundraising::contract::KatherineFundraising;
use katherine_fundraising::errors::KatherineError;
use katherine_fundraising::supporter::{Account, Funder, Supporter};
use katherine_fundraising::utils::{
    check_account_id, checked_proportional, convert_to_valid_account_id, decimal_string, ends_with, get_current_epoch_millis, get_epoch_millis,
    get_linear_release_proportion, is_close, parse_u32, proportional, proportional_result, proportional_with_steps,
};

const NEAR: u128 = 1_000_000_000_000_000_000_000_000;

#[test]
fn proportional_rounds_down() {
    assert_eq!(proportional(10, 3, 4), 7);
    assert_eq!(proportional(100 * NEAR, 27 * NEAR, NEAR), 2700 * NEAR);
    assert_eq!(proportional(200, 2700 * NEAR, 10_000), 54 * NEAR);
}

#[test]
fn proportional_keeps_the_full_product() {
    assert_eq!(proportional(u128::MAX, u128::MAX, u128::MAX), u128::MAX);
    assert_eq!(proportional(u128::MAX, 3, 4), u128::MAX / 4 * 3 + 2);
    assert_eq!(checked_proportional(u128::MAX, 2, 1), None);
    assert_eq!(checked_proportional(5, 1, 0), None);
    assert_eq!(proportional_result(u128::MAX, 2, 1), Err(KatherineError::ArithmeticOverflow));
    assert_eq!(proportional_result(5, 1, 0), Err(KatherineError::DivisionByZero));
    assert_eq!(proportional_result(9, 2, 3), Ok(6));
}

#[test]
fn is_close_within_a_milli_near() {
    assert!(is_close(10 * NEAR, 10 * NEAR + ONE_MILLI_NEAR - 1));
    assert!(is_close(10 * NEAR - ONE_MILLI_NEAR + 1, 10 * NEAR));
    assert!(is_close(10 * NEAR, 10 * NEAR));
    // The bounds are strict.
    assert!(!is_close(10 * NEAR, 10 * NEAR + ONE_MILLI_NEAR));
    assert!(!is_close(10 * NEAR - ONE_MILLI_NEAR, 10 * NEAR));
    assert!(!is_close(NEAR + ONE_MILLI_NEAR, NEAR));
    assert!(is_close(0, 5));
}

#[test]
fn linear_release_between_cliff_and_end() {
    assert_eq!(get_linear_release_proportion(100, 10, 20, 5), 0);
    assert_eq!(get_linear_release_proportion(100, 10, 20, 10), 0);
    assert_eq!(get_linear_release_proportion(100, 10, 20, 15), 50);
    assert_eq!(get_linear_release_proportion(100, 10, 20, 17), 70);
    assert_eq!(get_linear_release_proportion(100, 10, 20, 20), 100);
    assert_eq!(get_linear_release_proportion(100, 10, 20, 99), 100);
}

#[test]
fn release_in_steps() {
    // 100 * 37 / 100 = 37, and the largest tenth not above it is 30.
    assert_eq!(proportional_with_steps(100, 37, 100, 10), 30);
    assert_eq!(proportional_with_steps(100, 5, 100, 10), 0);
    assert_eq!(proportional_with_steps(100, 100, 100, 10), 90);
}

#[test]
fn clocks() {
    assert_eq!(get_current_epoch_millis(1_700_000_000_123_456_789), 1_700_000_000_123);
    assert_eq!(get_epoch_millis(5_000_000_000), 5);
}

#[test]
fn account_ids_are_checked() {
    assert_eq!(convert_to_valid_account_id("alice.near".to_string()), Ok("alice.near".to_string()));
    assert_eq!(convert_to_valid_account_id("a-b_c.testnet".to_string()), Ok("a-b_c.testnet".to_string()));
    assert_eq!(convert_to_valid_account_id("Alice.near".to_string()), Err(KatherineError::InvalidAccountId));
    assert_eq!(convert_to_valid_account_id("a".to_string()), Err(KatherineError::InvalidAccountId));
    assert_eq!(convert_to_valid_account_id("alice..near".to_string()), Err(KatherineError::InvalidAccountId));
    assert_eq!(convert_to_valid_account_id(".alice".to_string()), Err(KatherineError::InvalidAccountId));
    assert_eq!(convert_to_valid_account_id("a".repeat(65)), Err(KatherineError::InvalidAccountId));
    assert_eq!(convert_to_valid_account_id("a".repeat(64)), Ok("a".repeat(64)));
}

#[test]
fn account_ids_are_read_as_json_strings() {
    // The id is read as the content of a JSON string, so escapes resolve.
    assert_eq!(convert_to_valid_account_id("\\u0061b.near".to_string()), Ok("ab.near".to_string()));
    assert_eq!(convert_to_valid_account_id("bob\\u002enear".to_string()), Ok("bob.near".to_string()));
    assert_eq!(convert_to_valid_account_id("bob\"near".to_string()), Err(KatherineError::InvalidAccountId));
    assert_eq!(convert_to_valid_account_id("bob\\".to_string()), Err(KatherineError::InvalidAccountId));
    assert_eq!(check_account_id(Some("carol.near".to_string())), Ok("carol.near".to_string()));
    assert_eq!(check_account_id(Some("Carol".to_string())), Err(KatherineError::InvalidAccountId));
    assert_eq!(check_account_id(None), Err(KatherineError::InvalidAccountId));
}

#[test]
fn invalid_receiver_refuses_withdrawal() {
    let mut contract = KatherineFundraising::new("admin.near".to_string(), 1, "pool.near".to_string(), 0);
    let id = contract
        .create_kickstarter(
            "k".to_string(),
            "k".to_string(),
            "k.near".to_string(),
            10,
            100,
            "t.near".to_string(),
            1000,
            1,
            &"admin.near".to_string(),
            0,
        )
        .unwrap();
    contract.kickstarters[0].enough_reward_tokens = true;
    let bad = "Bad Id".to_string();
    assert_eq!(contract.process_supporter_deposit(&bad, 5, id, 20), Ok(()));
    let r = contract.withdraw(5, id, &bad, 30, 300_000_000_000_000);
    assert!(matches!(r, Err(KatherineError::InvalidAccountId)));
    assert_eq!(contract.kickstarters[0].get_deposit(&bad), Ok(5));
}

#[test]
fn parse_decimal_ids() {
    assert_eq!(parse_u32("42"), Some(42));
    assert_eq!(parse_u32("+7"), Some(7));
    assert_eq!(parse_u32("007"), Some(7));
    assert_eq!(parse_u32("4294967295"), Some(u32::MAX));
    assert_eq!(parse_u32("4294967296"), None);
    assert_eq!(parse_u32(""), None);
    assert_eq!(parse_u32("+"), None);
    assert_eq!(parse_u32("-1"), None);
    assert_eq!(parse_u32("1a"), None);
}

#[test]
fn suffixes() {
    assert!(ends_with("bob.lockup.near", ".lockup.near"));
    assert!(!ends_with("bob.near", ".lockup.near"));
    assert!(ends_with("x", ""));
}

#[test]
fn storage_prefixes() {
    assert_eq!(Keys::Deposits.as_prefix("7"), "D:7");
    assert_eq!(Keys::KickstarterId.as_prefix("abc"), "Kid:abc");
    assert_eq!(Keys::StnearWithdraws.as_prefix(""), "SW:");
    assert_ne!(Keys::Supporters.as_prefix("p1"), Keys::SupportedProjects.as_prefix("1"));
    assert_ne!(Keys::Kickstarters.as_prefix("id1"), Keys::KickstarterId.as_prefix("1"));
}

#[test]
fn id_set_removes_by_swapping() {
    let mut s = IdSet::new();
    s.insert(1);
    s.insert(2);
    s.insert(3);
    s.insert(2);
    assert_eq!(s.to_vec(), vec![1, 2, 3]);
    s.remove(1);
    assert_eq!(s.to_vec(), vec![3, 2]);
    assert!(s.contains(2) && !s.contains(1));
    s.remove(9);
    assert_eq!(s.len(), 2);
}

#[test]
fn account_map_keeps_key_order() {
    let mut m: AccountMap<u32> = AccountMap::new();
    m.insert("a".to_string(), 1);
    m.insert("b".to_string(), 2);
    m.insert("c".to_string(), 3);
    m.insert("a".to_string(), 4);
    assert_eq!(m.get(&"a".to_string()), Some(&4));
    m.remove(&"a".to_string());
    assert_eq!(m.keys(), vec!["c".to_string(), "b".to_string()]);
    assert!(!m.contains_key(&"a".to_string()));
    assert_eq!(m.len(), 2);
}

#[test]
fn records_that_hold_nothing_are_empty() {
    let s = Supporter::new(&"x.near".to_string());
    assert!(s.is_empty());
    assert!(!s.is_supporting(0));
    let a = Account::default();
    assert!(a.is_empty());
    let f = Funder::default("f.near".to_string());
    assert_eq!(f.owner, "f.near");
    assert_eq!(f.amount, 0);
}

#[test]
fn take_from_available_rounds_to_the_balance() {
    let mut contract = KatherineFundraising::new("admin.near".to_string(), 1, "pool.near".to_string(), 0);
    contract.total_available = 100 * NEAR;
    let mut s = Supporter::new(&"x.near".to_string());
    s.available = 10 * NEAR;
    let taken = s.take_from_available(10 * NEAR - 1, &mut contract, &"x.near".to_string());
    assert_eq!(taken, Ok(10 * NEAR));
    assert_eq!(s.available, 0);
    assert_eq!(contract.total_available, 90 * NEAR);

    s.available = 10 * NEAR;
    let taken = s.take_from_available(10 * NEAR - 1, &mut contract, &"x.lockup.near".to_string());
    assert_eq!(taken, Ok(10 * NEAR - 1));
    assert_eq!(s.available, 1);
    assert_eq!(
        s.take_from_available(2, &mut contract, &"x.lockup.near".to_string()),
        Err(KatherineError::NotEnoughAvailableBalance)
    );
    contract.total_available = 0;
    assert_eq!(
        s.take_from_available(1, &mut contract, &"x.near".to_string()),
        Err(KatherineError::TotalAvailableInconsistency)
    );
}

#[test]
fn direct_bookkeeping() {
    let mut contract = KatherineFundraising::new("admin.near".to_string(), 1, "pool.near".to_string(), 0);
    let id = contract
        .create_kickstarter(
            "k".to_string(),
            "k".to_string(),
            "k.near".to_string(),
            10,
            100,
            "t.near".to_string(),
            1000,
            1,
            &"admin.near".to_string(),
            0,
        )
        .unwrap();
    let s = "x.near".to_string();
    assert_eq!(contract.internal_supporter_deposit(&s, 7, id, 5), Err(KatherineError::NotWithinFundingPeriod));
    assert_eq!(contract.internal_supporter_deposit(&s, 7, id, 50), Ok(0));
    assert_eq!(contract.kickstarters[0].total_deposited, 7);
    assert_eq!(contract.internal_get_supporter(&s).total_in_deposits, 7);
    assert!(contract.internal_verify_total_deposited(&contract.kickstarters[0], &s, 7));
    assert!(!contract.internal_verify_total_deposited(&contract.kickstarters[0], &s, 8));
    assert_eq!(contract.return_tokens_callback(s.clone(), id, 3, false), Ok(()));
    assert_eq!(contract.kickstarters[0].get_deposit(&s), Ok(10));
    assert_eq!(contract.internal_restore_withdraw(1, 5, s.clone()), Err(KatherineError::UnknownKickstarterId));

    assert_eq!(
        contract.internal_kickstarter_deposit(9, id, &"other.near".to_string(), 5),
        Err(KatherineError::WrongTokenContract)
    );
    assert_eq!(
        contract.internal_kickstarter_deposit(9, id, &"t.near".to_string(), 11),
        Err(KatherineError::RewardTokensAfterFundingPeriod)
    );
    assert_eq!(contract.internal_kickstarter_deposit(9, id, &"t.near".to_string(), 10), Ok(0));
    assert_eq!(contract.kickstarters[0].available_reward_tokens, 9);

    let empty = Supporter::new(&s);
    contract.internal_update_supporter(&s, &empty);
    assert_eq!(contract.supporters.len(), 0);
}

#[test]
fn numbers_are_written_in_decimal() {
    assert_eq!(decimal_string(0), "0");
    assert_eq!(decimal_string(7), "7");
    assert_eq!(decimal_string(10), "10");
    assert_eq!(decimal_string(63_000_000_000_000), "63000000000000");
    assert_eq!(decimal_string(u128::MAX), u128::MAX.to_string());
}
