use dusn::account::{push_decimal, str_eq};
use dusn::constants::{
    AFTER_FT_TRANSFER_GAS, FT_TRANSFER_GAS, GAS_FOR_ADD_LIQUIDITY, GAS_FOR_ADD_STABLE_LIQUIDITY,
    GAS_FOR_FT_TRANSFER_CALL, GAS_FOR_MFT_TRANSFER_CALL, GAS_FOR_STAKE, GAS_FOR_STORAGE_DEPOSIT,
    MIN_USN_AMOUNT, ONE_NEAR, ONE_YOCTO,
};
use dusn::contract::{Contract, LedgerChange, OnTransferOutcome, Reply, SettlementOutcome};
use dusn::errors::ContractError;
use dusn::plan::{CallMethod, FunctionCall, PromisePlan};
use dusn::pricing::{dusn_for_deposit, shares_to_unstake, usn_for_redeem};
use dusn::ref_config::{Network, RefConfig};

const USN: &str = "usn.test.near";
const DUSN: &str = "dusn.test.near";
const ALICE: &str = "alice.test.near";

fn vault(reserve: u128) -> Contract {
    Contract {
        usn_token_account_id: USN.to_string(),
        usn_reserve: reserve,
        current_account_id: DUSN.to_string(),
        ref_config: RefConfig::for_network(Network::Sandbox),
    }
}

fn call(receiver: &str, method: CallMethod, deposit: u128, gas: u64) -> PromisePlan {
    PromisePlan::Call(FunctionCall {
        receiver_id: receiver.to_string(),
        method,
        attached_deposit: deposit,
        static_gas: gas,
    })
}

fn then(a: PromisePlan, b: PromisePlan) -> PromisePlan {
    PromisePlan::Then(Box::new(a), Box::new(b))
}

fn add_liquidity_plan(amount: u128) -> PromisePlan {
    then(
        then(
            call(
                USN,
                CallMethod::FtTransferCall {
                    receiver_id: "ref.test.near".to_string(),
                    amount,
                    memo: None,
                    msg: String::new(),
                },
                ONE_YOCTO,
                GAS_FOR_FT_TRANSFER_CALL,
            ),
            call(
                "ref.test.near",
                CallMethod::AddStableLiquidity { pool_id: 3020, amounts: vec![amount, 0], min_shares: 0 },
                10_000_000_000_000_000_000_000,
                GAS_FOR_ADD_STABLE_LIQUIDITY,
            ),
        ),
        call(DUSN, CallMethod::StakeAfterAddingLiquidity, 0, GAS_FOR_STAKE),
    )
}

fn unstake_plan(amount: u128) -> PromisePlan {
    then(
        then(
            then(
                call("ref.test.near", CallMethod::GetPoolSharePrice { pool_id: 3020 }, 0, 0),
                call(
                    "boostfarm-ref.test.near",
                    CallMethod::UnstakeLpSharesAfterGettingSharePrice { amount },
                    0,
                    GAS_FOR_ADD_LIQUIDITY,
                ),
            ),
            call(
                "ref.test.near",
                CallMethod::RemoveLiquidityByTokens {
                    pool_id: 3020,
                    amounts: vec![amount, 0],
                    max_burn_shares: amount,
                },
                0,
                GAS_FOR_ADD_LIQUIDITY,
            ),
        ),
        call(
            "ref.test.near",
            CallMethod::Withdraw { token_id: USN.to_string(), amount, unregister: Some(false) },
            0,
            GAS_FOR_ADD_LIQUIDITY,
        ),
    )
}

fn redemption_plan(account: &str, usn: u128, dusn: u128) -> PromisePlan {
    then(
        unstake_plan(usn),
        then(
            call(
                USN,
                CallMethod::FtTransfer { receiver_id: account.to_string(), amount: usn, memo: None },
                ONE_YOCTO,
                FT_TRANSFER_GAS,
            ),
            call(
                DUSN,
                CallMethod::AfterUsnTransfer {
                    account_id: account.to_string(),
                    usn_return_amount: usn,
                    dusn_received_amount: dusn,
                },
                0,
                AFTER_FT_TRANSFER_GAS,
            ),
        ),
    )
}

const E18: u128 = 1_000_000_000_000_000_000;

#[test]
fn network_configs() {
    let m = RefConfig::for_network(Network::Mainnet);
    assert_eq!(m.ref_address, "v2.ref-finance.near");
    assert_eq!(m.farm_address, "boostfarm.ref-labs.near");
    assert_eq!(m.pool_id, 3020);
    assert_eq!(m.token_id, ":3020");
    assert_eq!(m.reward_token_id, "usn");
    let t = RefConfig::for_network(Network::Testnet);
    assert_eq!(t.ref_address, "ref-finance-101.testnet");
    assert_eq!(t.farm_address, "boostfarm.ref-finance.testnet");
    assert_eq!(t.pool_id, 494);
    assert_eq!(t.token_id, ":494");
    assert_eq!(t.reward_token_id, "usdc.fakes.testnet");
    let s = RefConfig::for_network(Network::Sandbox);
    assert_eq!(s.ref_address, "ref.test.near");
    assert_eq!(s.farm_address, "boostfarm-ref.test.near");
}

#[test]
fn seed_ids() {
    assert_eq!(RefConfig::for_network(Network::Mainnet).seed_id(), "v2.ref-finance.near@3020");
    assert_eq!(RefConfig::for_network(Network::Testnet).seed_id(), "ref-finance-101.testnet@494");
}

#[test]
fn decimals() {
    for n in [0u64, 7, 10, 3020, 494, 1_000_000, u64::MAX] {
        let mut s = String::from("x");
        push_decimal(&mut s, n);
        assert_eq!(s, format!("x{}", n));
    }
}

#[test]
fn string_equality() {
    assert!(str_eq("deposit", "deposit"));
    assert!(!str_eq("deposit", "deposi"));
    assert!(!str_eq("deposit", "redeem"));
    assert!(str_eq("", ""));
    assert!(!str_eq("é", "e"));
}

#[test]
fn quotes() {
    assert_eq!(dusn_for_deposit(10 * E18, 20 * E18 - 1, 40 * E18), Ok(5 * E18));
    assert_eq!(usn_for_redeem(5 * E18, 30 * E18 - 1, 40 * E18), Ok(6_666_666_666_666_666_666));
    assert_eq!(dusn_for_deposit(10 * E18, 100 * E18, 1), Err(ContractError::Overflow));
    assert_eq!(dusn_for_deposit(1, u128::MAX, 1), Err(ContractError::Overflow));
    assert_eq!(dusn_for_deposit(u128::MAX, 1, 1), Err(ContractError::Overflow));
    assert_eq!(dusn_for_deposit(10 * E18, 0, 0), Err(ContractError::DivisionByZero));
    assert_eq!(shares_to_unstake(100_000_000, 995), Ok(1000));
    assert_eq!(shares_to_unstake(u128::MAX, 2), Err(ContractError::Overflow));
}

#[test]
fn deposit_mints_and_forwards_usn() {
    let mut c = vault(20 * E18);
    let amount = 10 * E18;
    let (outcome, detached) = c
        .ft_on_transfer(USN, ALICE.to_string(), amount, "deposit", 20 * E18 - 1)
        .unwrap();
    assert_eq!(c.usn_reserve, 30 * E18);
    assert_eq!(
        outcome,
        OnTransferOutcome {
            mint: Some(LedgerChange { account_id: ALICE.to_string(), amount: 10 * E18 }),
            burn: None,
            reply: Reply::Promise(add_liquidity_plan(amount)),
        }
    );
    assert_eq!(detached, None);
}

#[test]
fn deposit_refusals() {
    let mut c = vault(100 * E18);
    assert_eq!(
        c.ft_on_transfer("other.near", ALICE.to_string(), 10 * E18, "deposit", 0),
        Err(ContractError::OnlyUsnCanBeDeposited)
    );
    assert_eq!(
        c.ft_on_transfer(USN, ALICE.to_string(), MIN_USN_AMOUNT - 1, "deposit", 0),
        Err(ContractError::DepositTooSmall)
    );
    assert_eq!(
        c.ft_on_transfer(USN, ALICE.to_string(), 10 * E18, "deposit", u128::MAX),
        Err(ContractError::Overflow)
    );
    assert_eq!(c.usn_reserve, 100 * E18);
    let mut empty = vault(0);
    assert_eq!(
        empty.ft_on_transfer(USN, ALICE.to_string(), 10 * E18, "deposit", 0),
        Err(ContractError::DivisionByZero)
    );
    let mut full = vault(u128::MAX - 5);
    assert_eq!(
        full.ft_on_transfer(USN, ALICE.to_string(), 10, "", 0),
        Err(ContractError::Overflow)
    );
    assert_eq!(full.usn_reserve, u128::MAX - 5);
}

#[test]
fn redeem_burns_and_schedules_payout() {
    let mut c = vault(40 * E18);
    let (outcome, detached) = c
        .ft_on_transfer(DUSN, ALICE.to_string(), 5 * E18, "redeem", 20 * E18 - 1)
        .unwrap();
    assert_eq!(c.usn_reserve, 40 * E18);
    assert_eq!(
        outcome,
        OnTransferOutcome {
            mint: None,
            burn: Some(LedgerChange { account_id: DUSN.to_string(), amount: 5 * E18 }),
            reply: Reply::Promise(redemption_plan(ALICE, 10 * E18, 5 * E18)),
        }
    );
    assert_eq!(detached, None);
}

#[test]
fn redeem_refusals() {
    let mut c = vault(40 * E18);
    assert_eq!(
        c.ft_on_transfer(USN, ALICE.to_string(), 5 * E18, "redeem", 20 * E18),
        Err(ContractError::OnlyDusnCanBeRedeemed)
    );
    assert_eq!(
        c.ft_on_transfer(DUSN, ALICE.to_string(), E18, "redeem", 20 * E18 - 1),
        Err(ContractError::RedeemTooSmall { min_dusn_amount: 5 })
    );
    let mut empty = vault(0);
    assert_eq!(
        empty.ft_on_transfer(DUSN, ALICE.to_string(), E18, "redeem", 100 * E18),
        Err(ContractError::DivisionByZero)
    );
    let mut bad = vault(40 * E18);
    bad.ref_config.farm_address = "Bad..Farm";
    assert_eq!(
        bad.ft_on_transfer(DUSN, ALICE.to_string(), 5 * E18, "redeem", 20 * E18 - 1),
        Err(ContractError::InvalidAccountId)
    );
}

#[test]
fn other_tokens_and_messages() {
    let mut c = vault(100 * E18);
    let (outcome, _) = c.ft_on_transfer("other.near", ALICE.to_string(), 7, "hello", 0).unwrap();
    assert_eq!(outcome, OnTransferOutcome { mint: None, burn: None, reply: Reply::Value(0) });
    let (outcome, _) = c.ft_on_transfer(USN, ALICE.to_string(), 7, "", 0).unwrap();
    assert_eq!(outcome.reply, Reply::Promise(add_liquidity_plan(7)));
    assert_eq!(c.usn_reserve, 100 * E18 + 7);
    let (outcome, _) = c.ft_on_transfer(DUSN, ALICE.to_string(), 7, "", 0).unwrap();
    assert_eq!(outcome.burn, Some(LedgerChange { account_id: DUSN.to_string(), amount: 7 }));
    assert_eq!(outcome.reply, Reply::Value(0));
}

#[test]
fn usn_token_that_is_the_vault() {
    let mut c = vault(40 * E18);
    c.usn_token_account_id = DUSN.to_string();
    let (outcome, detached) = c
        .ft_on_transfer(DUSN, ALICE.to_string(), 5 * E18, "redeem", 20 * E18 - 1)
        .unwrap();
    assert_eq!(c.usn_reserve, 45 * E18);
    assert_eq!(outcome.burn, None);
    assert!(matches!(outcome.reply, Reply::Promise(_)));
    assert!(detached.is_some());
}

#[test]
fn settlement() {
    let mut c = vault(200 * E18);
    assert_eq!(
        c.after_usn_transfer(true, ALICE.to_string(), 100 * E18, 50 * E18),
        Ok(SettlementOutcome { refund: None, transferred: true })
    );
    assert_eq!(c.usn_reserve, 100 * E18);
    assert_eq!(
        c.after_usn_transfer(false, ALICE.to_string(), 100 * E18, 50 * E18),
        Ok(SettlementOutcome {
            refund: Some(LedgerChange { account_id: ALICE.to_string(), amount: 50 * E18 }),
            transferred: false,
        })
    );
    assert_eq!(c.usn_reserve, 100 * E18);
    assert_eq!(
        c.after_usn_transfer(true, ALICE.to_string(), 100 * E18 + 1, 50 * E18),
        Err(ContractError::Overflow)
    );
    assert_eq!(c.usn_reserve, 100 * E18);
}

#[test]
fn ref_plans() {
    let mut c = vault(0);
    assert_eq!(c.ref_add_stable_liquidity(5), Ok(add_liquidity_plan(5)));
    assert_eq!(c.deposit_usn(5), Ok(add_liquidity_plan(5)));
    assert_eq!(c.ref_unstake_lp_shares_with_token_amount(9), Ok(unstake_plan(9)));
    assert_eq!(
        c.withdraw_and_transfer_usn(ALICE.to_string(), 9, 4),
        Ok(redemption_plan(ALICE, 9, 4))
    );
    assert_eq!(
        c.ref_claim_and_withdraw_reward(),
        Ok(then(
            call(
                "boostfarm-ref.test.near",
                CallMethod::ClaimRewardBySeed { seed_id: "ref.test.near@3020".to_string() },
                0,
                GAS_FOR_ADD_LIQUIDITY,
            ),
            call(
                "boostfarm-ref.test.near",
                CallMethod::WithdrawReward { token_id: "usn".to_string(), amount: None },
                0,
                GAS_FOR_ADD_LIQUIDITY,
            ),
        ))
    );
    let deposit = CallMethod::StorageDeposit {
        account_id: Some(DUSN.to_string()),
        registration_only: Some(false),
    };
    assert_eq!(
        c.ref_storage_deposit(),
        Ok(then(
            call("ref.test.near", deposit.clone(), ONE_NEAR / 10, GAS_FOR_STORAGE_DEPOSIT),
            call("boostfarm-ref.test.near", deposit, ONE_NEAR / 10, GAS_FOR_STORAGE_DEPOSIT),
        ))
    );
}

#[test]
fn callbacks() {
    let c = vault(0);
    assert_eq!(
        c.stake_after_adding_liquidity(Some(42)),
        Ok(call(
            "ref.test.near",
            CallMethod::MftTransferCall {
                receiver_id: "boostfarm-ref.test.near".to_string(),
                token_id: ":3020".to_string(),
                amount: 42,
                msg: "\"Free\"".to_string(),
            },
            ONE_YOCTO,
            GAS_FOR_MFT_TRANSFER_CALL,
        ))
    );
    assert_eq!(c.stake_after_adding_liquidity(None), Err(ContractError::CallbackFailed));
    assert_eq!(
        c.unstake_lp_shares_after_getting_share_price(995, Some(100_000_000)),
        Ok(call(
            "boostfarm-ref.test.near",
            CallMethod::UnlockAndWithdrawSeed {
                seed_id: "ref.test.near@3020".to_string(),
                unlock_amount: 0,
                withdraw_amount: 1000,
            },
            ONE_NEAR,
            GAS_FOR_ADD_LIQUIDITY,
        ))
    );
    assert_eq!(
        c.unstake_lp_shares_after_getting_share_price(995, None),
        Err(ContractError::CallbackFailed)
    );
    assert_eq!(
        c.unstake_lp_shares_after_getting_share_price(2, Some(u128::MAX)),
        Err(ContractError::Overflow)
    );
}

#[test]
fn invalid_addresses_are_refused() {
    let mut c = vault(0);
    c.ref_config.ref_address = "Ref.Finance";
    assert_eq!(c.ref_add_stable_liquidity(5), Err(ContractError::InvalidAccountId));
    assert_eq!(c.ref_storage_deposit(), Err(ContractError::InvalidAccountId));
    assert_eq!(c.stake_after_adding_liquidity(Some(1)), Err(ContractError::InvalidAccountId));
    let mut c = vault(0);
    c.ref_config.reward_token_id = "-usn";
    assert_eq!(c.ref_claim_and_withdraw_reward(), Err(ContractError::InvalidAccountId));
    let mut c = vault(0);
    c.usn_token_account_id = "u".to_string();
    assert_eq!(c.ref_unstake_lp_shares_with_token_amount(1), Err(ContractError::InvalidAccountId));
    let mut c = vault(0);
    c.ref_config.farm_address = "farm_";
    assert_eq!(
        c.unstake_lp_shares_after_getting_share_price(995, Some(100_000_000)),
        Err(ContractError::InvalidAccountId)
    );
}
