//! The calls the vault makes to Ref Finance: adding and removing stable-pool
//! liquidity, staking LP shares in the farm, claiming rewards, and registering
//! storage.

use vstd::prelude::*;
use crate::account::{checked_account_id, near_account_id_rules};
use crate::constants::{
    GAS_FOR_ADD_LIQUIDITY, GAS_FOR_ADD_STABLE_LIQUIDITY, GAS_FOR_FT_TRANSFER_CALL,
    GAS_FOR_MFT_TRANSFER_CALL, GAS_FOR_STAKE, GAS_FOR_STORAGE_DEPOSIT, ONE_NEAR, ONE_YOCTO,
};
use crate::contract::{Contract, ContractView};
use crate::errors::ContractError;
use crate::plan::{call, call_plan, then, then_plan, CallMethod, MethodView, PlanView, PromisePlan};
use crate::pricing::{shares_to_unstake, unstake_shares_quote};
use crate::ref_config::seed_id_of;

verus! {

/// Transfer `amount` USN to the Ref exchange, add it to the stable pool, then
/// have this contract stake the LP shares it got.
pub open spec fn add_stable_liquidity_plan(c: ContractView, amount: u128) -> PlanView {
    then_plan(
        then_plan(
            call_plan(
                c.usn_token_account_id,
                MethodView::FtTransferCall {
                    receiver_id: c.ref_config.ref_address,
                    amount,
                    memo: None,
                    msg: Seq::empty(),
                },
                ONE_YOCTO,
                GAS_FOR_FT_TRANSFER_CALL,
            ),
            call_plan(
                c.ref_config.ref_address,
                MethodView::AddStableLiquidity {
                    pool_id: c.ref_config.pool_id,
                    amounts: seq![amount, 0],
                    min_shares: 0,
                },
                ONE_NEAR / 100,
                GAS_FOR_ADD_STABLE_LIQUIDITY,
            ),
        ),
        call_plan(
            c.current_account_id,
            MethodView::StakeAfterAddingLiquidity,
            0,
            GAS_FOR_STAKE,
        ),
    )
}

/// Read the pool's share price, have the farm callback unstake the shares for
/// `amount` USN, remove `amount` USN of liquidity, and withdraw it from Ref.
pub open spec fn unstake_plan(c: ContractView, amount: u128) -> PlanView {
    then_plan(
        then_plan(
            then_plan(
                call_plan(
                    c.ref_config.ref_address,
                    MethodView::GetPoolSharePrice { pool_id: c.ref_config.pool_id },
                    0,
                    0,
                ),
                call_plan(
                    c.ref_config.farm_address,
                    MethodView::UnstakeLpSharesAfterGettingSharePrice { amount },
                    0,
                    GAS_FOR_ADD_LIQUIDITY,
                ),
            ),
            call_plan(
                c.ref_config.ref_address,
                MethodView::RemoveLiquidityByTokens {
                    pool_id: c.ref_config.pool_id,
                    amounts: seq![amount, 0],
                    max_burn_shares: amount,
                },
                0,
                GAS_FOR_ADD_LIQUIDITY,
            ),
        ),
        call_plan(
            c.ref_config.ref_address,
            MethodView::Withdraw {
                token_id: c.usn_token_account_id,
                amount,
                unregister: Some(false),
            },
            0,
            GAS_FOR_ADD_LIQUIDITY,
        ),
    )
}

/// Claim the farm rewards of the pool's seed, then withdraw them.
pub open spec fn claim_reward_plan(c: ContractView) -> PlanView {
    then_plan(
        call_plan(
            c.ref_config.farm_address,
            MethodView::ClaimRewardBySeed {
                seed_id: seed_id_of(c.ref_config.ref_address, c.ref_config.pool_id),
            },
            0,
            GAS_FOR_ADD_LIQUIDITY,
        ),
        call_plan(
            c.ref_config.farm_address,
            MethodView::WithdrawReward { token_id: c.ref_config.reward_token_id, amount: None },
            0,
            GAS_FOR_ADD_LIQUIDITY,
        ),
    )
}

/// Register storage for this contract on the exchange, then on the farm.
pub open spec fn storage_deposit_plan(c: ContractView) -> PlanView {
    let deposit = MethodView::StorageDeposit {
        account_id: Some(c.current_account_id),
        registration_only: Some(false),
    };
    then_plan(
        call_plan(c.ref_config.ref_address, deposit, ONE_NEAR / 10, GAS_FOR_STORAGE_DEPOSIT),
        call_plan(c.ref_config.farm_address, deposit, ONE_NEAR / 10, GAS_FOR_STORAGE_DEPOSIT),
    )
}

/// Stake `shares` LP shares in the farm, unlocked ("Free").
pub open spec fn stake_plan(c: ContractView, shares: u128) -> PlanView {
    call_plan(
        c.ref_config.ref_address,
        MethodView::MftTransferCall {
            receiver_id: c.ref_config.farm_address,
            token_id: c.ref_config.token_id,
            amount: shares,
            msg: "\"Free\""@,
        },
        ONE_YOCTO,
        GAS_FOR_MFT_TRANSFER_CALL,
    )
}

/// Withdraw `shares` LP shares of the pool's seed from the farm.
pub open spec fn unlock_seed_plan(c: ContractView, shares: u128) -> PlanView {
    call_plan(
        c.ref_config.farm_address,
        MethodView::UnlockAndWithdrawSeed {
            seed_id: seed_id_of(c.ref_config.ref_address, c.ref_config.pool_id),
            unlock_amount: 0,
            withdraw_amount: shares,
        },
        ONE_NEAR,
        GAS_FOR_ADD_LIQUIDITY,
    )
}

impl Contract {
    fn ref_address(&self) -> (r: Result<String, ContractError>)
        ensures
            r is Ok <==> near_account_id_rules(self.ref_config.ref_address@),
            r matches Ok(s) ==> s@ == self.ref_config.ref_address@,
            r matches Err(e) ==> e == ContractError::InvalidAccountId,
    {
        match checked_account_id(self.ref_config.ref_address.to_owned()) {
            Some(s) => Ok(s),
            None => Err(ContractError::InvalidAccountId),
        }
    }

    fn farm_address(&self) -> (r: Result<String, ContractError>)
        ensures
            r is Ok <==> near_account_id_rules(self.ref_config.farm_address@),
            r matches Ok(s) ==> s@ == self.ref_config.farm_address@,
            r matches Err(e) ==> e == ContractError::InvalidAccountId,
    {
        match checked_account_id(self.ref_config.farm_address.to_owned()) {
            Some(s) => Ok(s),
            None => Err(ContractError::InvalidAccountId),
        }
    }

    /// Adds `amount` USN to the Ref stable pool and stakes the LP shares.
    /// Fails only when the exchange address is not a valid account id.
    pub fn ref_add_stable_liquidity(&self, amount: u128) -> (r: Result<PromisePlan, ContractError>)
        ensures
            r is Ok <==> near_account_id_rules(self.ref_config.ref_address@),
            r matches Ok(p) ==> p@ == add_stable_liquidity_plan(self@, amount),
            r matches Err(e) ==> e == ContractError::InvalidAccountId,
    {
        let ref_address = self.ref_address()?;
        let transfer = call(
            self.usn_token_account_id.clone(),
            CallMethod::FtTransferCall {
                receiver_id: ref_address.clone(),
                amount,
                memo: None,
                msg: String::new(),
            },
            ONE_YOCTO,
            GAS_FOR_FT_TRANSFER_CALL,
        );
        let mut amounts: Vec<u128> = Vec::new();
        amounts.push(amount);
        amounts.push(0);
        let add = call(
            ref_address,
            CallMethod::AddStableLiquidity {
                pool_id: self.ref_config.pool_id,
                amounts,
                min_shares: 0,
            },
            ONE_NEAR / 100,
            GAS_FOR_ADD_STABLE_LIQUIDITY,
        );
        let stake = call(
            self.current_account_id.clone(),
            CallMethod::StakeAfterAddingLiquidity,
            0,
            GAS_FOR_STAKE,
        );
        assert(amounts@ =~= seq![amount, 0]);
        Ok(then(then(transfer, add), stake))
    }

    /// Removes `amount` USN of liquidity from Ref and withdraws it to this
    /// contract. Fails only when the exchange, the farm or the USN token is not a
    /// valid account id.
    pub fn ref_unstake_lp_shares_with_token_amount(&self, amount: u128) -> (r: Result<
        PromisePlan,
        ContractError,
    >)
        ensures
            r is Ok <==> near_account_id_rules(self.ref_config.ref_address@)
                && near_account_id_rules(self.ref_config.farm_address@) && near_account_id_rules(
                self.usn_token_account_id@,
            ),
            r matches Ok(p) ==> p@ == unstake_plan(self@, amount),
            r matches Err(e) ==> e == ContractError::InvalidAccountId,
    {
        let ref_address = self.ref_address()?;
        let farm_address = self.farm_address()?;
        let usn_token = match checked_account_id(self.usn_token_account_id.clone()) {
            Some(s) => s,
            None => return Err(ContractError::InvalidAccountId),
        };
        let price = call(
            ref_address.clone(),
            CallMethod::GetPoolSharePrice { pool_id: self.ref_config.pool_id },
            0,
            0,
        );
        let unstake = call(
            farm_address,
            CallMethod::UnstakeLpSharesAfterGettingSharePrice { amount },
            0,
            GAS_FOR_ADD_LIQUIDITY,
        );
        let mut amounts: Vec<u128> = Vec::new();
        amounts.push(amount);
        amounts.push(0);
        let remove = call(
            ref_address.clone(),
            CallMethod::RemoveLiquidityByTokens {
                pool_id: self.ref_config.pool_id,
                amounts,
                max_burn_shares: amount,
            },
            0,
            GAS_FOR_ADD_LIQUIDITY,
        );
        let withdraw = call(
            ref_address,
            CallMethod::Withdraw { token_id: usn_token, amount, unregister: Some(false) },
            0,
            GAS_FOR_ADD_LIQUIDITY,
        );
        assert(amounts@ =~= seq![amount, 0]);
        Ok(then(then(then(price, unstake), remove), withdraw))
    }

    /// Claims the farm rewards and withdraws them. Fails only when the farm or
    /// the reward token is not a valid account id.
    pub fn ref_claim_and_withdraw_reward(&self) -> (r: Result<PromisePlan, ContractError>)
        ensures
            r is Ok <==> near_account_id_rules(self.ref_config.farm_address@)
                && near_account_id_rules(self.ref_config.reward_token_id@),
            r matches Ok(p) ==> p@ == claim_reward_plan(self@),
            r matches Err(e) ==> e == ContractError::InvalidAccountId,
    {
        let farm_address = self.farm_address()?;
        let reward_token = match checked_account_id(self.ref_config.reward_token_id.to_owned()) {
            Some(s) => s,
            None => return Err(ContractError::InvalidAccountId),
        };
        let claim = call(
            farm_address.clone(),
            CallMethod::ClaimRewardBySeed { seed_id: self.ref_config.seed_id() },
            0,
            GAS_FOR_ADD_LIQUIDITY,
        );
        let withdraw = call(
            farm_address,
            CallMethod::WithdrawReward { token_id: reward_token, amount: None },
            0,
            GAS_FOR_ADD_LIQUIDITY,
        );
        Ok(then(claim, withdraw))
    }

    /// Registers this contract's storage on the exchange and on the farm, 0.1
    /// NEAR each. Fails only when one of them is not a valid account id.
    pub fn ref_storage_deposit(&self) -> (r: Result<PromisePlan, ContractError>)
        ensures
            r is Ok <==> near_account_id_rules(self.ref_config.ref_address@)
                && near_account_id_rules(self.ref_config.farm_address@),
            r matches Ok(p) ==> p@ == storage_deposit_plan(self@),
            r matches Err(e) ==> e == ContractError::InvalidAccountId,
    {
        let ref_address = self.ref_address()?;
        let farm_address = self.farm_address()?;
        let on_exchange = call(
            ref_address,
            CallMethod::StorageDeposit {
                account_id: Some(self.current_account_id.clone()),
                registration_only: Some(false),
            },
            ONE_NEAR / 10,
            GAS_FOR_STORAGE_DEPOSIT,
        );
        let on_farm = call(
            farm_address,
            CallMethod::StorageDeposit {
                account_id: Some(self.current_account_id.clone()),
                registration_only: Some(false),
            },
            ONE_NEAR / 10,
            GAS_FOR_STORAGE_DEPOSIT,
        );
        Ok(then(on_exchange, on_farm))
    }

    /// Callback after `add_stable_liquidity`: stakes the LP shares it minted,
    /// `call_result` (`None` when that call failed).
    pub fn stake_after_adding_liquidity(&self, call_result: Option<u128>) -> (r: Result<
        PromisePlan,
        ContractError,
    >)
        ensures
            call_result is None ==> r == Err::<PromisePlan, _>(ContractError::CallbackFailed),
            call_result is Some ==> (r is Ok <==> near_account_id_rules(
                self.ref_config.ref_address@,
            ) && near_account_id_rules(self.ref_config.farm_address@)),
            call_result is Some && r is Err ==> r == Err::<PromisePlan, _>(
                ContractError::InvalidAccountId,
            ),
            r matches Ok(p) ==> p@ == stake_plan(self@, call_result->Some_0),
    {
        let shares = match call_result {
            Some(s) => s,
            None => return Err(ContractError::CallbackFailed),
        };
        let ref_address = self.ref_address()?;
        let farm_address = self.farm_address()?;
        Ok(
            call(
                ref_address,
                CallMethod::MftTransferCall {
                    receiver_id: farm_address,
                    token_id: self.ref_config.token_id.to_owned(),
                    amount: shares,
                    msg: "\"Free\"".to_owned(),
                },
                ONE_YOCTO,
                GAS_FOR_MFT_TRANSFER_CALL,
            ),
        )
    }

    /// Callback after `get_pool_share_price`: withdraws from the farm the LP
    /// shares worth `amount` USN at the share price `call_result` (`None` when
    /// that call failed), plus a 0.5% buffer.
    pub fn unstake_lp_shares_after_getting_share_price(
        &self,
        amount: u128,
        call_result: Option<u128>,
    ) -> (r: Result<PromisePlan, ContractError>)
        ensures
            call_result is None ==> r == Err::<PromisePlan, _>(ContractError::CallbackFailed),
            call_result matches Some(price) ==> match unstake_shares_quote(price, amount) {
                Err(e) => r == Err::<PromisePlan, _>(e),
                Ok(shares) => (r is Ok <==> near_account_id_rules(self.ref_config.farm_address@))
                    && (r matches Ok(p) ==> p@ == unlock_seed_plan(self@, shares))
                    && (r matches Err(e) ==> e == ContractError::InvalidAccountId),
            },
    {
        let share_price = match call_result {
            Some(p) => p,
            None => return Err(ContractError::CallbackFailed),
        };
        let shares = shares_to_unstake(share_price, amount)?;
        let farm_address = self.farm_address()?;
        Ok(
            call(
                farm_address,
                CallMethod::UnlockAndWithdrawSeed {
                    seed_id: self.ref_config.seed_id(),
                    unlock_amount: 0,
                    withdraw_amount: shares,
                },
                ONE_NEAR,
                GAS_FOR_ADD_LIQUIDITY,
            ),
        )
    }
}

} // verus!
