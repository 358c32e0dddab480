//! Cross-contract calls, described as plain values.
//!
//! A [`PromisePlan`] mirrors the promise expression the contract builds with
//! near-sdk: a single function call, or one plan chained after another with
//! `then`. The contract turns a plan into promises call for call, so the shape of
//! the tree is the shape of the promise expression.

use vstd::prelude::*;

verus! {

/// A method on another contract (or on this one), with its arguments.
#[derive(Debug, Clone, PartialEq, Eq)]
pub enum CallMethod {
    /// NEP-141 `ft_transfer`.
    FtTransfer { receiver_id: String, amount: u128, memo: Option<String> },
    /// NEP-141 `ft_transfer_call`.
    FtTransferCall { receiver_id: String, amount: u128, memo: Option<String>, msg: String },
    /// Ref `storage_deposit`.
    StorageDeposit { account_id: Option<String>, registration_only: Option<bool> },
    /// Ref `add_stable_liquidity`.
    AddStableLiquidity { pool_id: u64, amounts: Vec<u128>, min_shares: u128 },
    /// Ref `mft_transfer_call`.
    MftTransferCall { receiver_id: String, token_id: String, amount: u128, msg: String },
    /// Ref `get_pool_share_price`.
    GetPoolSharePrice { pool_id: u64 },
    /// Ref `remove_liquidity_by_tokens`.
    RemoveLiquidityByTokens { pool_id: u64, amounts: Vec<u128>, max_burn_shares: u128 },
    /// Ref `withdraw`.
    Withdraw { token_id: String, amount: u128, unregister: Option<bool> },
    /// Ref farm `claim_reward_by_seed`.
    ClaimRewardBySeed { seed_id: String },
    /// Ref farm `withdraw_reward`.
    WithdrawReward { token_id: String, amount: Option<u128> },
    /// Ref farm `unlock_and_withdraw_seed`.
    UnlockAndWithdrawSeed { seed_id: String, unlock_amount: u128, withdraw_amount: u128 },
    /// Callback `stake_after_adding_liquidity`.
    StakeAfterAddingLiquidity,
    /// Callback `unstake_lp_shares_after_getting_share_price`.
    UnstakeLpSharesAfterGettingSharePrice { amount: u128 },
    /// Callback `after_usn_transfer`.
    AfterUsnTransfer { account_id: String, usn_return_amount: u128, dusn_received_amount: u128 },
}

/// One function call: receiver, method, attached deposit (yocto) and static gas.
/// A gas of 0 leaves the gas to the runtime's unused-gas weighting.
#[derive(Debug, Clone, PartialEq, Eq)]
pub struct FunctionCall {
    pub receiver_id: String,
    pub method: CallMethod,
    pub attached_deposit: u128,
    pub static_gas: u64,
}

/// A promise expression: a call, or `first.then(second)`.
#[derive(Debug, PartialEq, Eq)]
pub enum PromisePlan {
    Call(FunctionCall),
    Then(Box<PromisePlan>, Box<PromisePlan>),
}

/// The mathematical value of a [`CallMethod`].
pub enum MethodView {
    FtTransfer { receiver_id: Seq<char>, amount: u128, memo: Option<Seq<char>> },
    FtTransferCall {
        receiver_id: Seq<char>,
        amount: u128,
        memo: Option<Seq<char>>,
        msg: Seq<char>,
    },
    StorageDeposit { account_id: Option<Seq<char>>, registration_only: Option<bool> },
    AddStableLiquidity { pool_id: u64, amounts: Seq<u128>, min_shares: u128 },
    MftTransferCall { receiver_id: Seq<char>, token_id: Seq<char>, amount: u128, msg: Seq<char> },
    GetPoolSharePrice { pool_id: u64 },
    RemoveLiquidityByTokens { pool_id: u64, amounts: Seq<u128>, max_burn_shares: u128 },
    Withdraw { token_id: Seq<char>, amount: u128, unregister: Option<bool> },
    ClaimRewardBySeed { seed_id: Seq<char> },
    WithdrawReward { token_id: Seq<char>, amount: Option<u128> },
    UnlockAndWithdrawSeed { seed_id: Seq<char>, unlock_amount: u128, withdraw_amount: u128 },
    StakeAfterAddingLiquidity,
    UnstakeLpSharesAfterGettingSharePrice { amount: u128 },
    AfterUsnTransfer {
        account_id: Seq<char>,
        usn_return_amount: u128,
        dusn_received_amount: u128,
    },
}

/// The mathematical value of a [`FunctionCall`].
pub struct CallView {
    pub receiver_id: Seq<char>,
    pub method: MethodView,
    pub attached_deposit: u128,
    pub static_gas: u64,
}

/// The mathematical value of a [`PromisePlan`].
pub enum PlanView {
    Call(CallView),
    Then(Box<PlanView>, Box<PlanView>),
}

pub open spec fn opt_str_view(o: Option<String>) -> Option<Seq<char>> {
    match o {
        Some(s) => Some(s@),
        None => None,
    }
}

impl View for CallMethod {
    type V = MethodView;

    open spec fn view(&self) -> MethodView {
        match self {
            CallMethod::FtTransfer { receiver_id, amount, memo } => MethodView::FtTransfer {
                receiver_id: receiver_id@,
                amount: *amount,
                memo: opt_str_view(*memo),
            },
            CallMethod::FtTransferCall { receiver_id, amount, memo, msg } =>
                MethodView::FtTransferCall {
                receiver_id: receiver_id@,
                amount: *amount,
                memo: opt_str_view(*memo),
                msg: msg@,
            },
            CallMethod::StorageDeposit { account_id, registration_only } =>
                MethodView::StorageDeposit {
                account_id: opt_str_view(*account_id),
                registration_only: *registration_only,
            },
            CallMethod::AddStableLiquidity { pool_id, amounts, min_shares } =>
                MethodView::AddStableLiquidity {
                pool_id: *pool_id,
                amounts: amounts@,
                min_shares: *min_shares,
            },
            CallMethod::MftTransferCall { receiver_id, token_id, amount, msg } =>
                MethodView::MftTransferCall {
                receiver_id: receiver_id@,
                token_id: token_id@,
                amount: *amount,
                msg: msg@,
            },
            CallMethod::GetPoolSharePrice { pool_id } => MethodView::GetPoolSharePrice {
                pool_id: *pool_id,
            },
            CallMethod::RemoveLiquidityByTokens { pool_id, amounts, max_burn_shares } =>
                MethodView::RemoveLiquidityByTokens {
                pool_id: *pool_id,
                amounts: amounts@,
                max_burn_shares: *max_burn_shares,
            },
            CallMethod::Withdraw { token_id, amount, unregister } => MethodView::Withdraw {
                token_id: token_id@,
                amount: *amount,
                unregister: *unregister,
            },
            CallMethod::ClaimRewardBySeed { seed_id } => MethodView::ClaimRewardBySeed {
                seed_id: seed_id@,
            },
            CallMethod::WithdrawReward { token_id, amount } => MethodView::WithdrawReward {
                token_id: token_id@,
                amount: *amount,
            },
            CallMethod::UnlockAndWithdrawSeed { seed_id, unlock_amount, withdraw_amount } =>
                MethodView::UnlockAndWithdrawSeed {
                seed_id: seed_id@,
                unlock_amount: *unlock_amount,
                withdraw_amount: *withdraw_amount,
            },
            CallMethod::StakeAfterAddingLiquidity => MethodView::StakeAfterAddingLiquidity,
            CallMethod::UnstakeLpSharesAfterGettingSharePrice { amount } =>
                MethodView::UnstakeLpSharesAfterGettingSharePrice { amount: *amount },
            CallMethod::AfterUsnTransfer {
                account_id,
                usn_return_amount,
                dusn_received_amount,
            } => MethodView::AfterUsnTransfer {
                account_id: account_id@,
                usn_return_amount: *usn_return_amount,
                dusn_received_amount: *dusn_received_amount,
            },
        }
    }
}

impl View for FunctionCall {
    type V = CallView;

    open spec fn view(&self) -> CallView {
        CallView {
            receiver_id: self.receiver_id@,
            method: self.method@,
            attached_deposit: self.attached_deposit,
            static_gas: self.static_gas,
        }
    }
}

pub open spec fn plan_view(p: PromisePlan) -> PlanView
    decreases p,
{
    match p {
        PromisePlan::Call(c) => PlanView::Call(c@),
        PromisePlan::Then(a, b) => PlanView::Then(Box::new(plan_view(*a)), Box::new(plan_view(*b))),
    }
}

impl View for PromisePlan {
    type V = PlanView;

    open spec fn view(&self) -> PlanView {
        plan_view(*self)
    }
}

/// The plan of a single call.
pub open spec fn call_plan(
    receiver_id: Seq<char>,
    method: MethodView,
    attached_deposit: u128,
    static_gas: u64,
) -> PlanView {
    PlanView::Call(CallView { receiver_id, method, attached_deposit, static_gas })
}

/// The plan `first.then(second)`.
pub open spec fn then_plan(first: PlanView, second: PlanView) -> PlanView {
    PlanView::Then(Box::new(first), Box::new(second))
}

/// A call plan from its parts.
pub fn call(
    receiver_id: String,
    method: CallMethod,
    attached_deposit: u128,
    static_gas: u64,
) -> (p: PromisePlan)
    ensures
        p@ == call_plan(receiver_id@, method@, attached_deposit, static_gas),
{
    PromisePlan::Call(FunctionCall { receiver_id, method, attached_deposit, static_gas })
}

/// `first.then(second)`.
pub fn then(first: PromisePlan, second: PromisePlan) -> (p: PromisePlan)
    ensures
        p@ == then_plan(first@, second@),
{
    PromisePlan::Then(Box::new(first), Box::new(second))
}

} // verus!
