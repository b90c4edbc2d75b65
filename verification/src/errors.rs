//! The reasons for which the contract refuses a call. A refused call changes
//! nothing.

use vstd::prelude::*;
use vstd::string::StringExecFns;

use crate::utils::{decimal, decimal_string};

verus! {

#[derive(Debug, Clone, Copy, PartialEq, Eq, Structural)]
pub enum KatherineError {
    /// Only the contract owner (or the kickstarter owner) may call this.
    OnlyAdmin,
    /// Only the contract owner or the kickstarter's owner may call this.
    OnlyAdminOrKickstarterOwner,
    UnknownKickstarterId,
    InvalidKickstarterId,
    InvalidAccountId,
    SlugAlreadyExists,
    NonexistentSlug,
    /// Kickstarters are never deleted; holds the id asked for.
    KickstarterMustNotBeDeleted { id: u32 },
    IndexOutOfRange,
    FromIndexOutOfRange,
    IncorrectOpenTimestamp,
    IncorrectCloseTimestamp,
    AlreadyHasWinningGoal,
    ActionAfterFundingPeriodOpen,
    TooManyGoals,
    DesiredAmountExceedsHardCap,
    TokensToReleaseExceedMax,
    GoalDesiredAmountDecreases,
    GoalFreezesLonger,
    GoalReleasesLess,
    GoalNotFound,
    NoGoalDefined,
    KatherineFeeNotDenominated,
    NotWithinFundingPeriod,
    NotEnoughRewardTokensToSupport,
    /// A deposit below the minimum; holds the minimum.
    MinimumDepositAmount { minimum: u128 },
    HardCapExceeded,
    WrongTokenContract,
    RewardTokensAfterFundingPeriod,
    SupporterNotInKickstarter,
    FundingPeriodNotOver,
    AlreadyActivated,
    MetaPoolNotAvailable,
    NoAchievedGoal,
    NotEnoughRewardTokens,
    FundsStillFrozen,
    PriceAtUnfreezeNotDefined,
    PriceAtFreezeNotDefined,
    /// Too little prepaid gas; holds the gas required.
    NotEnoughGas { required: u64 },
    ZeroAmount,
    FundingPeriodOverMustEvaluate,
    NotAvailableAmount,
    NoAvailableKickstarterTokens,
    TokensNotReleased,
    /// A claim above the available rewards; holds what is available.
    NotEnoughTokens { available: u128 },
    WithdrawAmountTooHigh,
    KickstarterIsUnsuccessful,
    KickstarterWasUnsuccessful,
    ExcedentBeforeFundingEnds,
    NotEvaluated,
    NoExcedent,
    FeeBeforeClose,
    KatherineFeeIsZero,
    StNearPriceRequired,
    WrongStNearPrice,
    FundsNotFrozen,
    PriceNotUpdated,
    AmountExceedsBalance,
    UnfreezeBeforeInterestWithdraw,
    WithdrawnAmountHigherThanExpected,
    ConversionRateNotEstablished,
    NotEnoughAvailableBalance,
    TotalAvailableInconsistency,
    /// An arithmetic operation would leave the range of its type.
    ArithmeticOverflow,
    DivisionByZero,
}

impl KatherineError {
    /// The text that the contract reports for this refusal.
    pub open spec fn spec_message(&self) -> Seq<char> {
        match self {
            KatherineError::OnlyAdmin => "only allowed for admin"@,
            KatherineError::OnlyAdminOrKickstarterOwner => "only allowed for admin or kickstarter owner"@,
            KatherineError::UnknownKickstarterId => "Unknown KickstarterId"@,
            KatherineError::InvalidKickstarterId => "Invalid KickstarterId."@,
            KatherineError::InvalidAccountId => "The account ID is invalid"@,
            KatherineError::SlugAlreadyExists => "Slug already exists!"@,
            KatherineError::NonexistentSlug => "Nonexistent slug!"@,
            KatherineError::KickstarterMustNotBeDeleted { id } => "Kickstarter "@ + decimal(*id as nat)
                + " must not be deleted!"@,
            KatherineError::IndexOutOfRange => "Index is out of range!"@,
            KatherineError::FromIndexOutOfRange => "from_index is out of range!"@,
            KatherineError::IncorrectOpenTimestamp => "Incorrect open timestamp!"@,
            KatherineError::IncorrectCloseTimestamp => "Incorrect close timestamp!"@,
            KatherineError::AlreadyHasWinningGoal => "Kickster already has a winning goal."@,
            KatherineError::ActionAfterFundingPeriodOpen => "Action not allow after funding period is open!"@,
            KatherineError::TooManyGoals => "Too many goals!"@,
            KatherineError::DesiredAmountExceedsHardCap => "Desired amount must not exceed the deposits hard cap!"@,
            KatherineError::TokensToReleaseExceedMax => "Tokens to release must not exceed the max tokens to release per stNEAR!"@,
            KatherineError::GoalDesiredAmountDecreases => "Next goal cannot have a lower desired amount that the last goal!"@,
            KatherineError::GoalFreezesLonger => "Next goal cannot freeze supporter funds any longer than the last goal!"@,
            KatherineError::GoalReleasesLess => "Next goal cannot release less pTOKEN than the last goal!"@,
            KatherineError::GoalNotFound => "Goal not found!"@,
            KatherineError::NoGoalDefined => "No goal defined"@,
            KatherineError::KatherineFeeNotDenominated => "Katherine fee must be denominated at goal evaluation"@,
            KatherineError::NotWithinFundingPeriod => "Not within the funding period."@,
            KatherineError::NotEnoughRewardTokensToSupport => "Supporters cannot deposit until the Kickstarter covers the required rewards!"@,
            KatherineError::MinimumDepositAmount { minimum } => "minimum deposit amount is "@ + decimal(*minimum as nat),
            KatherineError::HardCapExceeded => "The deposits hard cap cannot be exceeded!"@,
            KatherineError::WrongTokenContract => "Deposited tokens do not correspond to the Kickstarter contract."@,
            KatherineError::RewardTokensAfterFundingPeriod => "Kickstarter Tokens should be provided before the funding period ends."@,
            KatherineError::SupporterNotInKickstarter => "Supporter is not part of Kickstarter!"@,
            KatherineError::FundingPeriodNotOver => "Funding period is not over!"@,
            KatherineError::AlreadyActivated => "kickstarter already activated"@,
            KatherineError::MetaPoolNotAvailable => "Meta Pool is not available!"@,
            KatherineError::NoAchievedGoal => "Kickstarter did not achieved any goal!"@,
            KatherineError::NotEnoughRewardTokens => "Not enough available reward tokens to back the supporters rewards!"@,
            KatherineError::FundsStillFrozen => "Assets are still freezed."@,
            KatherineError::PriceAtUnfreezeNotDefined => "Price at unfreeze is not defined. Please unfreeze kickstarter funds with fn: unfreeze_kickstarter_funds!"@,
            KatherineError::PriceAtFreezeNotDefined => "stnear price at freeze not defined"@,
            KatherineError::NotEnoughGas { required } => "gas required "@ + decimal(*required as nat),
            KatherineError::ZeroAmount => "The amount to withdraw should be greater than Zero!"@,
            KatherineError::FundingPeriodOverMustEvaluate => "The funding period is over, Kickstarter must be evaluated!"@,
            KatherineError::NotAvailableAmount => "Not available amount!"@,
            KatherineError::NoAvailableKickstarterTokens => "Supporter does not have available Kickstarter Tokens"@,
            KatherineError::TokensNotReleased => "Tokens not released."@,
            KatherineError::NotEnoughTokens { available } => "Not enough tokens, available balance is "@ + decimal(
                *available as nat,
            ) + "."@,
            KatherineError::WithdrawAmountTooHigh => "Withdraw amount too high."@,
            KatherineError::KickstarterIsUnsuccessful => "Kickstarter is unsuccessful!"@,
            KatherineError::KickstarterWasUnsuccessful => "Kickstarter was unsuccessful."@,
            KatherineError::ExcedentBeforeFundingEnds => "The excedent is avalable only after the funding period ends"@,
            KatherineError::NotEvaluated => "Before withdrawing pTOKEN, evaluate the project using the process_kickstarter fn!"@,
            KatherineError::NoExcedent => "No remaining excedent pTOKEN to withdraw!"@,
            KatherineError::FeeBeforeClose => "To withdraw the Katherine Fee the Kickstarter must be closed."@,
            KatherineError::KatherineFeeIsZero => "Katherine fee is 0."@,
            KatherineError::StNearPriceRequired => "An exact value is not available. Please send the current stNEAR price to calculate an estimation"@,
            KatherineError::WrongStNearPrice => "Please check the st_near_price you sent."@,
            KatherineError::FundsNotFrozen => "Run this fn only if the kickstarter has freezed funds."@,
            KatherineError::PriceNotUpdated => "stNear price has not been updated, please wait!"@,
            KatherineError::AmountExceedsBalance => "amount to withdraw exceeds balance"@,
            KatherineError::UnfreezeBeforeInterestWithdraw => "Unfreeze funds before interest withdraw!"@,
            KatherineError::WithdrawnAmountHigherThanExpected => "withdrawn amount is higher than expected"@,
            KatherineError::ConversionRateNotEstablished => "Conversion rate has not been stablished!"@,
            KatherineError::NotEnoughAvailableBalance => "Not enough available balance for the requested supporter"@,
            KatherineError::TotalAvailableInconsistency => "i_s_Inconsistency"@,
            KatherineError::ArithmeticOverflow => "arithmetic operation overflow"@,
            KatherineError::DivisionByZero => "attempt to divide by zero"@,
        }
    }

    /// The text that the contract reports for this refusal.
    pub fn message(&self) -> (r: String)
        ensures
            r@ == self.spec_message(),
    {
        match self {
            KatherineError::OnlyAdmin => String::from_str("only allowed for admin"),
            KatherineError::OnlyAdminOrKickstarterOwner => String::from_str("only allowed for admin or kickstarter owner"),
            KatherineError::UnknownKickstarterId => String::from_str("Unknown KickstarterId"),
            KatherineError::InvalidKickstarterId => String::from_str("Invalid KickstarterId."),
            KatherineError::InvalidAccountId => String::from_str("The account ID is invalid"),
            KatherineError::SlugAlreadyExists => String::from_str("Slug already exists!"),
            KatherineError::NonexistentSlug => String::from_str("Nonexistent slug!"),
            KatherineError::KickstarterMustNotBeDeleted { id } => {
                let mut r = String::from_str("Kickstarter ");
                r.append(decimal_string(*id as u128).as_str());
                r.append(" must not be deleted!");
                r
            },
            KatherineError::IndexOutOfRange => String::from_str("Index is out of range!"),
            KatherineError::FromIndexOutOfRange => String::from_str("from_index is out of range!"),
            KatherineError::IncorrectOpenTimestamp => String::from_str("Incorrect open timestamp!"),
            KatherineError::IncorrectCloseTimestamp => String::from_str("Incorrect close timestamp!"),
            KatherineError::AlreadyHasWinningGoal => String::from_str("Kickster already has a winning goal."),
            KatherineError::ActionAfterFundingPeriodOpen => String::from_str("Action not allow after funding period is open!"),
            KatherineError::TooManyGoals => String::from_str("Too many goals!"),
            KatherineError::DesiredAmountExceedsHardCap => String::from_str("Desired amount must not exceed the deposits hard cap!"),
            KatherineError::TokensToReleaseExceedMax => String::from_str("Tokens to release must not exceed the max tokens to release per stNEAR!"),
            KatherineError::GoalDesiredAmountDecreases => String::from_str("Next goal cannot have a lower desired amount that the last goal!"),
            KatherineError::GoalFreezesLonger => String::from_str("Next goal cannot freeze supporter funds any longer than the last goal!"),
            KatherineError::GoalReleasesLess => String::from_str("Next goal cannot release less pTOKEN than the last goal!"),
            KatherineError::GoalNotFound => String::from_str("Goal not found!"),
            KatherineError::NoGoalDefined => String::from_str("No goal defined"),
            KatherineError::KatherineFeeNotDenominated => String::from_str("Katherine fee must be denominated at goal evaluation"),
            KatherineError::NotWithinFundingPeriod => String::from_str("Not within the funding period."),
            KatherineError::NotEnoughRewardTokensToSupport => String::from_str("Supporters cannot deposit until the Kickstarter covers the required rewards!"),
            KatherineError::MinimumDepositAmount { minimum } => {
                let mut r = String::from_str("minimum deposit amount is ");
                r.append(decimal_string(*minimum).as_str());
                r
            },
            KatherineError::HardCapExceeded => String::from_str("The deposits hard cap cannot be exceeded!"),
            KatherineError::WrongTokenContract => String::from_str("Deposited tokens do not correspond to the Kickstarter contract."),
            KatherineError::RewardTokensAfterFundingPeriod => String::from_str("Kickstarter Tokens should be provided before the funding period ends."),
            KatherineError::SupporterNotInKickstarter => String::from_str("Supporter is not part of Kickstarter!"),
            KatherineError::FundingPeriodNotOver => String::from_str("Funding period is not over!"),
            KatherineError::AlreadyActivated => String::from_str("kickstarter already activated"),
            KatherineError::MetaPoolNotAvailable => String::from_str("Meta Pool is not available!"),
            KatherineError::NoAchievedGoal => String::from_str("Kickstarter did not achieved any goal!"),
            KatherineError::NotEnoughRewardTokens => String::from_str("Not enough available reward tokens to back the supporters rewards!"),
            KatherineError::FundsStillFrozen => String::from_str("Assets are still freezed."),
            KatherineError::PriceAtUnfreezeNotDefined => String::from_str("Price at unfreeze is not defined. Please unfreeze kickstarter funds with fn: unfreeze_kickstarter_funds!"),
            KatherineError::PriceAtFreezeNotDefined => String::from_str("stnear price at freeze not defined"),
            KatherineError::NotEnoughGas { required } => {
                let mut r = String::from_str("gas required ");
                r.append(decimal_string(*required as u128).as_str());
                r
            },
            KatherineError::ZeroAmount => String::from_str("The amount to withdraw should be greater than Zero!"),
            KatherineError::FundingPeriodOverMustEvaluate => String::from_str("The funding period is over, Kickstarter must be evaluated!"),
            KatherineError::NotAvailableAmount => String::from_str("Not available amount!"),
            KatherineError::NoAvailableKickstarterTokens => String::from_str("Supporter does not have available Kickstarter Tokens"),
            KatherineError::TokensNotReleased => String::from_str("Tokens not released."),
            KatherineError::NotEnoughTokens { available } => {
                let mut r = String::from_str("Not enough tokens, available balance is ");
                r.append(decimal_string(*available).as_str());
                r.append(".");
                r
            },
            KatherineError::WithdrawAmountTooHigh => String::from_str("Withdraw amount too high."),
            KatherineError::KickstarterIsUnsuccessful => String::from_str("Kickstarter is unsuccessful!"),
            KatherineError::KickstarterWasUnsuccessful => String::from_str("Kickstarter was unsuccessful."),
            KatherineError::ExcedentBeforeFundingEnds => String::from_str("The excedent is avalable only after the funding period ends"),
            KatherineError::NotEvaluated => String::from_str("Before withdrawing pTOKEN, evaluate the project using the process_kickstarter fn!"),
            KatherineError::NoExcedent => String::from_str("No remaining excedent pTOKEN to withdraw!"),
            KatherineError::FeeBeforeClose => String::from_str("To withdraw the Katherine Fee the Kickstarter must be closed."),
            KatherineError::KatherineFeeIsZero => String::from_str("Katherine fee is 0."),
            KatherineError::StNearPriceRequired => String::from_str("An exact value is not available. Please send the current stNEAR price to calculate an estimation"),
            KatherineError::WrongStNearPrice => String::from_str("Please check the st_near_price you sent."),
            KatherineError::FundsNotFrozen => String::from_str("Run this fn only if the kickstarter has freezed funds."),
            KatherineError::PriceNotUpdated => String::from_str("stNear price has not been updated, please wait!"),
            KatherineError::AmountExceedsBalance => String::from_str("amount to withdraw exceeds balance"),
            KatherineError::UnfreezeBeforeInterestWithdraw => String::from_str("Unfreeze funds before interest withdraw!"),
            KatherineError::WithdrawnAmountHigherThanExpected => String::from_str("withdrawn amount is higher than expected"),
            KatherineError::ConversionRateNotEstablished => String::from_str("Conversion rate has not been stablished!"),
            KatherineError::NotEnoughAvailableBalance => String::from_str("Not enough available balance for the requested supporter"),
            KatherineError::TotalAvailableInconsistency => String::from_str("i_s_Inconsistency"),
            KatherineError::ArithmeticOverflow => String::from_str("arithmetic operation overflow"),
            KatherineError::DivisionByZero => String::from_str("attempt to divide by zero"),
        }
    }
}

} // verus!
