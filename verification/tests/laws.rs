use dusn::contract::{Contract, LedgerChange, Reply};
use dusn::plan::{CallMethod, PromisePlan};
use dusn::ref_config::{Network, RefConfig};

const E18: u128 = 1_000_000_000_000_000_000;

fn vault(reserve: u128) -> Contract {
    Contract {
        usn_token_account_id: "usn.near".to_string(),
        usn_reserve: reserve,
        current_account_id: "dusn.near".to_string(),
        ref_config: RefConfig::for_network(Network::Mainnet),
    }
}

/// The USN the settlement callback of a redemption plan pays.
fn payout(plan: &PromisePlan) -> u128 {
    match plan {
        PromisePlan::Then(_, rest) => match rest.as_ref() {
            PromisePlan::Then(_, settle) => match settle.as_ref() {
                PromisePlan::Call(c) => match &c.method {
                    CallMethod::AfterUsnTransfer { usn_return_amount, .. } => *usn_return_amount,
                    _ => panic!("not a settlement"),
                },
                _ => panic!("not a call"),
            },
            _ => panic!("not a chain"),
        },
        _ => panic!("not a chain"),
    }
}

#[test]
fn round_trip_pays_at_most_the_deposit() {
    for (reserve, supply, amount) in [
        (30 * E18, 20 * E18 - 1, 10 * E18),
        (7 * E18 + 3, 5 * E18, 11 * E18 + 1),
        (13 * E18, 9 * E18 + 7, 17 * E18 + 5),
    ] {
        let mut c = vault(reserve);
        let (deposit, _) = c
            .ft_on_transfer("usn.near", "bob.near".to_string(), amount, "deposit", supply)
            .unwrap();
        let minted = deposit.mint.unwrap().amount;
        let supply = supply + minted;
        match c.ft_on_transfer("dusn.near", "bob.near".to_string(), minted, "redeem", supply) {
            Ok((redemption, _)) => match redemption.reply {
                Reply::Promise(p) => assert!(payout(&p) <= amount),
                Reply::Value(_) => panic!("a redemption answers with a promise"),
            },
            Err(_) => {},
        }
    }
}

#[test]
fn deposit_keeps_the_price() {
    let (reserve, supply, amount) = (13 * E18, 9 * E18 + 7, 17 * E18 + 5);
    let mut c = vault(reserve);
    let (deposit, _) =
        c.ft_on_transfer("usn.near", "bob.near".to_string(), amount, "deposit", supply).unwrap();
    let minted = deposit.mint.unwrap().amount;
    // (reserve + amount) / (supply + minted + 1) >= reserve / (supply + 1), cross-multiplied in halves
    let lhs = (c.usn_reserve / E18) * ((supply + 1) / E18);
    let rhs = (reserve / E18) * ((supply + minted + 1) / E18);
    assert!(lhs >= rhs);
    assert_eq!(c.usn_reserve, reserve + amount);
}

#[test]
fn failed_redemption_restores() {
    let mut c = vault(40 * E18);
    let (redemption, _) = c
        .ft_on_transfer("dusn.near", "bob.near".to_string(), 5 * E18, "redeem", 20 * E18 - 1)
        .unwrap();
    assert_eq!(
        redemption.burn,
        Some(LedgerChange { account_id: "dusn.near".to_string(), amount: 5 * E18 })
    );
    let paid = match &redemption.reply {
        Reply::Promise(p) => payout(p),
        Reply::Value(_) => panic!("a redemption answers with a promise"),
    };
    assert_eq!(paid, 10 * E18);
    let settled = c.after_usn_transfer(false, "bob.near".to_string(), paid, 5 * E18).unwrap();
    assert_eq!(
        settled.refund,
        Some(LedgerChange { account_id: "bob.near".to_string(), amount: 5 * E18 })
    );
    assert_eq!(c.usn_reserve, 40 * E18);
}

#[test]
fn settled_redemption_keeps_the_price() {
    let (reserve, supply, redeemed) = (40 * E18, 20 * E18 - 1, 5 * E18);
    let mut c = vault(reserve);
    let (redemption, _) = c
        .ft_on_transfer("dusn.near", "bob.near".to_string(), redeemed, "redeem", supply)
        .unwrap();
    let paid = match &redemption.reply {
        Reply::Promise(p) => payout(p),
        Reply::Value(_) => panic!("a redemption answers with a promise"),
    };
    let settled = c.after_usn_transfer(true, "bob.near".to_string(), paid, redeemed).unwrap();
    assert!(settled.transferred);
    assert_eq!(c.usn_reserve, reserve - paid);
    // (reserve - paid) / (supply - redeemed + 1) >= reserve / (supply + 1)
    let lhs = (c.usn_reserve / E18) * ((supply + 1) / E18);
    let rhs = (reserve / E18) * ((supply - redeemed + 1) / E18);
    assert!(lhs >= rhs);
}

#[test]
fn accepted_usn_joins_the_reserve() {
    for msg in ["", "deposit", "stake"] {
        let mut c = vault(30 * E18);
        let (outcome, _) = c
            .ft_on_transfer("usn.near", "bob.near".to_string(), 10 * E18, msg, 20 * E18 - 1)
            .unwrap();
        assert_eq!(c.usn_reserve, 40 * E18);
        assert_eq!(outcome.reply, Reply::Promise(c.ref_add_stable_liquidity(10 * E18).unwrap()));
    }
}
