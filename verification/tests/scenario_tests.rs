use katherine_fundraising::contract::KatherineFundraising;
use katherine_fundraising::errors::KatherineError;
use katherine_fundraising::types::KickstarterId;
use katherine_fundraising::utils::get_current_epoch_millis;

const SYSTEM_ACCOUNT: &str = "system";
const CONTRACT_ACCOUNT: &str = "contract";
const OWNER_ACCOUNT: &str = SYSTEM_ACCOUNT;
const SUPPORTER_ACCOUNT: &str = "owner";
const DEPOSIT_AMOUNT: u128 = 200;
const START_TIME_IN_DAYS: u64 = 1777;
const KICKSTARTER_NAME: &str = "test_kickstarter";
const KICKSTARTER_SLUG: &str = "test_kickstarter_slug";
const METAPOOL_CONTRACT_ADDRESS: &str = "meta-v2.pool.testnet";
const YOCTO_UNITS: u128 = 1_000_000_000_000_000_000_000_000;
const KATHERINE_FEE_PERCENT: u32 = 200;
const PREPAID_GAS: u64 = 1_000_000_000_000_000;

/// 2018-08-01 UTC plus `num_days`, in nanoseconds.
fn to_ts(num_days: u64) -> u64 {
    1533081600_000_000_000 + to_nanos(num_days)
}

fn to_nanos(num_days: u64) -> u64 {
    num_days * 86400_000_000_000
}

/// The contract's clock, in milliseconds, for a block at `to_ts(START_TIME_IN_DAYS)`.
fn start_millis() -> u64 {
    get_current_epoch_millis(to_ts(START_TIME_IN_DAYS))
}

fn new_contract() -> KatherineFundraising {
    KatherineFundraising::new(OWNER_ACCOUNT.to_string(), 2, METAPOOL_CONTRACT_ADDRESS.to_string(), 2)
}

fn new_kickstarter(contract: &mut KatherineFundraising) -> Result<KickstarterId, KatherineError> {
    contract.create_kickstarter(
        KICKSTARTER_NAME.to_string(),
        KICKSTARTER_SLUG.to_string(),
        OWNER_ACCOUNT.to_string(),
        to_ts(START_TIME_IN_DAYS),
        to_ts(START_TIME_IN_DAYS * 50),
        CONTRACT_ACCOUNT.to_string(),
        100 * YOCTO_UNITS,
        27 * YOCTO_UNITS,
        &SYSTEM_ACCOUNT.to_string(),
        start_millis(),
    )
}

#[test]
fn lib_test_create_kickstarter() {
    let mut contract = new_contract();
    let id = new_kickstarter(&mut contract);
    assert_eq!(id, Ok(0));
    assert_eq!(1, contract.kickstarters.len());
}

#[test]
fn lib_test_get_kickstarters() {
    let contract = new_contract();
    let kickstarters = contract.get_kickstarters(0, 49);
    assert!(matches!(kickstarters, Ok(ref v) if v.is_empty()));
}

#[test]
fn lib_test_create_supporter() {
    let mut contract = new_contract();
    new_kickstarter(&mut contract).unwrap();
    let kickstarter_id = contract.kickstarters.len() - 1;
    let k = &mut contract.kickstarters[kickstarter_id];
    k.update_supporter_deposits(&String::from(SUPPORTER_ACCOUNT), DEPOSIT_AMOUNT).unwrap();
    assert_eq!(1, k.get_total_supporters());
}

#[test]
fn test_workflow() {
    let mut contract = new_contract();
    new_kickstarter(&mut contract).unwrap();
    let kickstarter_id = contract.kickstarters.len() - 1;
    let id = contract.kickstarters[kickstarter_id].id;
    contract.kickstarters[kickstarter_id]
        .update_supporter_deposits(&String::from(SUPPORTER_ACCOUNT), DEPOSIT_AMOUNT)
        .unwrap();
    let goal = contract.create_goal(
        id,
        "test_goal".to_string(),
        100,
        to_ts(START_TIME_IN_DAYS * 30),
        200,
        to_ts(START_TIME_IN_DAYS * 30),
        to_ts(START_TIME_IN_DAYS * 50),
        &SYSTEM_ACCOUNT.to_string(),
        start_millis(),
    );
    assert_eq!(goal, Ok(0));
    let _ = contract.withdraw(50, id, &SYSTEM_ACCOUNT.to_string(), start_millis(), PREPAID_GAS);
}

// The flows below follow a kickstarter from its creation, with a clock in
// milliseconds that starts at `NOW`.

const NOW: u64 = 1_700_000_000_000;
const MINUTE: u64 = 60_000;

fn katherine_owner() -> String {
    "katherine.owner.near".to_string()
}

fn supporter_account() -> String {
    "supporter.near".to_string()
}

fn kickstarter_owner(id: u32) -> String {
    format!("kickstarter_{}.near", id)
}

fn kickstarter_token(id: u32) -> String {
    format!("kickstarter_{}.near", id)
}

fn min_deposit_amount() -> u128 {
    YOCTO_UNITS
}

fn deposits_hard_cap() -> u128 {
    100 * YOCTO_UNITS
}

fn max_tokens_to_release_per_stnear() -> u128 {
    27 * YOCTO_UNITS
}

fn flow_contract() -> KatherineFundraising {
    KatherineFundraising::new(
        katherine_owner(),
        min_deposit_amount(),
        METAPOOL_CONTRACT_ADDRESS.to_string(),
        KATHERINE_FEE_PERCENT,
    )
}

/// Opens one minute from `now`, closes ten minutes later; the goals' cliff
/// is one minute after the close, their end and unfreeze one minute later.
fn create_kickstarter_with_2_goals(contract: &mut KatherineFundraising, now: u64) -> KickstarterId {
    let next_kickstarter_id = contract.get_total_kickstarters();
    let name = format!("kickstarter_{}", next_kickstarter_id);
    let open_timestamp = now + MINUTE;
    let close_timestamp = open_timestamp + 10 * MINUTE;
    let cliff_timestamp = close_timestamp + MINUTE;
    let end_timestamp = cliff_timestamp + MINUTE;
    let unfreeze_timestamp = end_timestamp;
    let kickstarter_id = contract
        .create_kickstarter(
            name.clone(),
            name,
            kickstarter_owner(next_kickstarter_id),
            open_timestamp,
            close_timestamp,
            kickstarter_token(next_kickstarter_id),
            deposits_hard_cap(),
            max_tokens_to_release_per_stnear(),
            &katherine_owner(),
            now,
        )
        .unwrap();

    let id = contract.create_goal(
        kickstarter_id,
        "goal_1".to_string(),
        10 * YOCTO_UNITS,
        unfreeze_timestamp,
        5 * YOCTO_UNITS,
        cliff_timestamp,
        end_timestamp,
        &katherine_owner(),
        now,
    );
    assert_eq!(Ok(1), contract.get_kickstarter_total_goals(kickstarter_id));
    assert_eq!(Ok(0), id, "Id of the first Goal should be 0.");

    let id = contract.create_goal(
        kickstarter_id,
        "goal_2".to_string(),
        20 * YOCTO_UNITS,
        unfreeze_timestamp,
        10 * YOCTO_UNITS,
        cliff_timestamp,
        end_timestamp,
        &katherine_owner(),
        now,
    );
    assert_eq!(Ok(2), contract.get_kickstarter_total_goals(kickstarter_id));
    assert_eq!(Ok(1), id, "Id of the second Goal should be 1.");

    kickstarter_id
}

/// The project tokens that back a kickstarter's rewards at its hard cap
/// and maximum rate, with Katherine's fee.
fn required_kickstarter_tokens(contract: &KatherineFundraising, id: KickstarterId) -> u128 {
    let kickstarter = &contract.kickstarters[id as usize];
    let max_tokens_to_release = contract.calculate_max_tokens_to_release(kickstarter).unwrap();
    max_tokens_to_release + contract.calculate_katherine_fee(max_tokens_to_release).unwrap()
}

fn deposit_kickstarter_tokens(
    contract: &mut KatherineFundraising,
    predecessor_account_id: String,
    id: KickstarterId,
    now: u64,
) -> Result<u128, KatherineError> {
    let amount = required_kickstarter_tokens(contract, id);
    contract.ft_on_transfer(kickstarter_owner(id), amount, &format!("{}", id), &predecessor_account_id, now + 5 * MINUTE)
}

#[test]
fn test_create_kickstarter_with_goals() {
    let mut contract = flow_contract();
    let kickstarter_id = create_kickstarter_with_2_goals(&mut contract, NOW);
    assert_eq!(1, contract.get_total_kickstarters());
    assert_eq!(0, kickstarter_id, "Id of the first Kickstarter should be 0.");

    let kickstarter_id = create_kickstarter_with_2_goals(&mut contract, NOW);
    assert_eq!(2, contract.get_total_kickstarters());
    assert_eq!(1, kickstarter_id, "Id of the first Kickstarter should be 0.");

    let kickstarters = contract.get_kickstarters(0, 10).unwrap();
    assert_eq!(2, kickstarters.len());
}

#[test]
fn test_fail_deposit_no_kickstarter_tokens() {
    let mut contract = flow_contract();
    create_kickstarter_with_2_goals(&mut contract, NOW);
    let r = contract.ft_on_transfer(
        supporter_account(),
        10 * YOCTO_UNITS,
        "0",
        &METAPOOL_CONTRACT_ADDRESS.to_string(),
        NOW + 5 * MINUTE,
    );
    assert_eq!(r, Err(KatherineError::NotEnoughRewardTokensToSupport));
    assert_eq!(
        r.unwrap_err().message(),
        "Supporters cannot deposit until the Kickstarter covers the required rewards!"
    );
}

#[test]
fn test_fail_deposit_after_close() {
    let mut contract = flow_contract();
    let id = create_kickstarter_with_2_goals(&mut contract, NOW);
    deposit_kickstarter_tokens(&mut contract, kickstarter_token(id), id, NOW).unwrap();
    let r = contract.ft_on_transfer(
        supporter_account(),
        10 * YOCTO_UNITS,
        "0",
        &METAPOOL_CONTRACT_ADDRESS.to_string(),
        NOW + 12 * MINUTE,
    );
    assert_eq!(r, Err(KatherineError::NotWithinFundingPeriod));
    assert_eq!(r.unwrap_err().message(), "Not within the funding period.");
}

#[test]
fn test_fail_deposit_bad_ptoken_contract() {
    let mut contract = flow_contract();
    let kickstarter_id = create_kickstarter_with_2_goals(&mut contract, NOW);
    let r = deposit_kickstarter_tokens(&mut contract, kickstarter_token(177), kickstarter_id, NOW);
    assert_eq!(r, Err(KatherineError::WrongTokenContract));
    assert_eq!(r.unwrap_err().message(), "Deposited tokens do not correspond to the Kickstarter contract.");
}

fn kickstarter_one_supporter_contract(deposit_amount: u128, now: u64) -> KatherineFundraising {
    let mut contract = flow_contract();
    let kickstarter_id = create_kickstarter_with_2_goals(&mut contract, now);
    deposit_kickstarter_tokens(&mut contract, kickstarter_token(kickstarter_id), kickstarter_id, now).unwrap();
    let returned_amount = contract.ft_on_transfer(
        supporter_account(),
        deposit_amount,
        &format!("{}", kickstarter_id),
        &METAPOOL_CONTRACT_ADDRESS.to_string(),
        now + 5 * MINUTE,
    );
    assert_eq!(returned_amount, Ok(0));
    contract
}

#[test]
fn mod_test_create_supporter() {
    let kickstarter_id = 0_u32;
    let desired_amount = 10 * YOCTO_UNITS;
    let contract = kickstarter_one_supporter_contract(desired_amount, NOW);
    assert_eq!(
        contract.get_supporter_total_deposit_in_kickstarter(&supporter_account(), kickstarter_id, None),
        Ok(desired_amount)
    );
    assert_eq!(contract.get_supported_projects(&supporter_account()), vec![kickstarter_id]);
}
