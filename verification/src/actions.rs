//! What the contract asks its host to do: the cross-contract calls that follow
//! a decision, and the callback that reports their outcome back.

use vstd::prelude::*;

use crate::types::{BalanceJSON, GoalIdJSON, KickstarterIdJSON};

verus! {

/// The callback to run on this contract once a cross-contract call ended,
/// with the values it needs.
pub enum Callback {
    /// Settle a supporter's stNEAR withdrawal made before the funds were frozen.
    ReturnTokensBeforeFreeze { supporter_id: String, kickstarter_id: KickstarterIdJSON, amount: BalanceJSON },
    /// Settle a supporter's stNEAR withdrawal made after the unfreeze.
    ReturnTokensAfterUnfreeze { supporter_id: String, kickstarter_id: KickstarterIdJSON, amount: BalanceJSON },
    /// Settle a supporter's claim of project tokens.
    ReturnTokensFromKickstarter { supporter_id: String, kickstarter_id: KickstarterIdJSON, amount: BalanceJSON },
    /// Settle the project's withdrawal of its excess project tokens.
    KickstarterWithdrawExcedent { kickstarter_id: KickstarterIdJSON, amount: BalanceJSON },
    /// Settle Katherine's withdrawal of its fee.
    WithdrawKickstarterFee { kickstarter_id: KickstarterIdJSON, amount: BalanceJSON },
    /// Finish the activation of a successful kickstarter with the stNEAR price.
    ActivateSuccessfulKickstarterAfter { kickstarter_id: KickstarterIdJSON, goal_id: GoalIdJSON },
    /// Record the stNEAR price at which the funds are unfrozen.
    SetStnearPriceAtUnfreeze { kickstarter_id: KickstarterIdJSON },
    /// Continue the project's interest withdrawal with the current stNEAR price.
    KickstarterWithdrawCallback { kickstarter_id: KickstarterIdJSON, receiver_id: String },
    /// Settle the project's interest withdrawal.
    KickstarterWithdrawResolveTransfer { kickstarter_id: KickstarterIdJSON, amount: BalanceJSON },
}

/// A cross-contract call followed by a callback on this contract.
pub enum PromiseAction {
    /// `ft_transfer` of `amount` tokens of `token_contract` to `receiver_id`.
    FtTransfer {
        token_contract: String,
        receiver_id: String,
        amount: BalanceJSON,
        memo: Option<String>,
        then: Callback,
    },
    /// `ft_transfer_call` of `amount` tokens of `token_contract` to `receiver_id`.
    FtTransferCall {
        token_contract: String,
        receiver_id: String,
        amount: BalanceJSON,
        memo: Option<String>,
        msg: String,
        then: Callback,
    },
    /// Ask the staking pool `metapool` for the current stNEAR price.
    GetStNearPrice { metapool: String, then: Callback },
}

/// A callback with its strings as character sequences.
pub enum CallbackView {
    ReturnTokensBeforeFreeze { supporter_id: Seq<char>, kickstarter_id: KickstarterIdJSON, amount: BalanceJSON },
    ReturnTokensAfterUnfreeze { supporter_id: Seq<char>, kickstarter_id: KickstarterIdJSON, amount: BalanceJSON },
    ReturnTokensFromKickstarter { supporter_id: Seq<char>, kickstarter_id: KickstarterIdJSON, amount: BalanceJSON },
    KickstarterWithdrawExcedent { kickstarter_id: KickstarterIdJSON, amount: BalanceJSON },
    WithdrawKickstarterFee { kickstarter_id: KickstarterIdJSON, amount: BalanceJSON },
    ActivateSuccessfulKickstarterAfter { kickstarter_id: KickstarterIdJSON, goal_id: GoalIdJSON },
    SetStnearPriceAtUnfreeze { kickstarter_id: KickstarterIdJSON },
    KickstarterWithdrawCallback { kickstarter_id: KickstarterIdJSON, receiver_id: Seq<char> },
    KickstarterWithdrawResolveTransfer { kickstarter_id: KickstarterIdJSON, amount: BalanceJSON },
}

impl View for Callback {
    type V = CallbackView;

    open spec fn view(&self) -> CallbackView {
        match self {
            Callback::ReturnTokensBeforeFreeze { supporter_id, kickstarter_id, amount } =>
                CallbackView::ReturnTokensBeforeFreeze { supporter_id: supporter_id@, kickstarter_id: *kickstarter_id, amount: *amount },
            Callback::ReturnTokensAfterUnfreeze { supporter_id, kickstarter_id, amount } =>
                CallbackView::ReturnTokensAfterUnfreeze { supporter_id: supporter_id@, kickstarter_id: *kickstarter_id, amount: *amount },
            Callback::ReturnTokensFromKickstarter { supporter_id, kickstarter_id, amount } =>
                CallbackView::ReturnTokensFromKickstarter { supporter_id: supporter_id@, kickstarter_id: *kickstarter_id, amount: *amount },
            Callback::KickstarterWithdrawExcedent { kickstarter_id, amount } =>
                CallbackView::KickstarterWithdrawExcedent { kickstarter_id: *kickstarter_id, amount: *amount },
            Callback::WithdrawKickstarterFee { kickstarter_id, amount } =>
                CallbackView::WithdrawKickstarterFee { kickstarter_id: *kickstarter_id, amount: *amount },
            Callback::ActivateSuccessfulKickstarterAfter { kickstarter_id, goal_id } =>
                CallbackView::ActivateSuccessfulKickstarterAfter { kickstarter_id: *kickstarter_id, goal_id: *goal_id },
            Callback::SetStnearPriceAtUnfreeze { kickstarter_id } =>
                CallbackView::SetStnearPriceAtUnfreeze { kickstarter_id: *kickstarter_id },
            Callback::KickstarterWithdrawCallback { kickstarter_id, receiver_id } =>
                CallbackView::KickstarterWithdrawCallback { kickstarter_id: *kickstarter_id, receiver_id: receiver_id@ },
            Callback::KickstarterWithdrawResolveTransfer { kickstarter_id, amount } =>
                CallbackView::KickstarterWithdrawResolveTransfer { kickstarter_id: *kickstarter_id, amount: *amount },
        }
    }
}

/// An optional memo as characters.
pub open spec fn memo_view(memo: Option<String>) -> Option<Seq<char>> {
    match memo {
        Some(m) => Some(m@),
        None => None,
    }
}

/// A cross-contract call with its strings as character sequences.
pub enum PromiseActionView {
    FtTransfer {
        token_contract: Seq<char>,
        receiver_id: Seq<char>,
        amount: BalanceJSON,
        memo: Option<Seq<char>>,
        then: CallbackView,
    },
    FtTransferCall {
        token_contract: Seq<char>,
        receiver_id: Seq<char>,
        amount: BalanceJSON,
        memo: Option<Seq<char>>,
        msg: Seq<char>,
        then: CallbackView,
    },
    GetStNearPrice { metapool: Seq<char>, then: CallbackView },
}

impl View for PromiseAction {
    type V = PromiseActionView;

    open spec fn view(&self) -> PromiseActionView {
        match self {
            PromiseAction::FtTransfer { token_contract, receiver_id, amount, memo, then } =>
                PromiseActionView::FtTransfer {
                    token_contract: token_contract@,
                    receiver_id: receiver_id@,
                    amount: *amount,
                    memo: memo_view(*memo),
                    then: then@,
                },
            PromiseAction::FtTransferCall { token_contract, receiver_id, amount, memo, msg, then } =>
                PromiseActionView::FtTransferCall {
                    token_contract: token_contract@,
                    receiver_id: receiver_id@,
                    amount: *amount,
                    memo: memo_view(*memo),
                    msg: msg@,
                    then: then@,
                },
            PromiseAction::GetStNearPrice { metapool, then } =>
                PromiseActionView::GetStNearPrice { metapool: metapool@, then: then@ },
        }
    }
}

} // verus!
