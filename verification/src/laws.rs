//! Laws of the vault's accounting, over the quotes its operations use.

use vstd::prelude::*;
use crate::errors::ContractError;
use crate::account::near_account_id_rules;
use crate::ref_config::{network_config, Network};
use crate::account::{decimal, digit_char};
use crate::contract::{ContractView, LedgerChangeView, OnTransferOutcomeView, ReplyView};
use crate::plan::{CallView, MethodView, PlanView};
use crate::ft_receiver::{on_transfer_spec, settle_spec, withdraw_and_transfer_plan};
use crate::pricing::{deposit_quote, min_redeem_quote, redeem_quote, unstake_shares_quote};
use crate::ref_function::{
    add_stable_liquidity_plan, claim_reward_plan, stake_plan, storage_deposit_plan,
    unlock_seed_plan, unstake_plan,
};

verus! {

proof fn lemma_floor_div_times(n: int, d: int, q: int)
    requires
        n >= 0,
        d > 0,
        q == n / d,
    ensures
        q * d <= n,
        q >= 0,
{
    assert(q * d <= n && q >= 0) by (nonlinear_arith)
        requires
            n >= 0,
            d > 0,
            q == n / d,
    ;
}

/// A deposit followed at once by the redemption of every dUSN it minted pays
/// out no more USN than was deposited: rounding never creates USN.
pub proof fn lemma_deposit_then_redeem_creates_no_usn(
    amount: u128,
    total_supply: u128,
    usn_reserve: u128,
)
    requires
        deposit_quote(amount, total_supply, usn_reserve) is Ok,
    ensures
        ({
            let minted = deposit_quote(amount, total_supply, usn_reserve)->Ok_0;
            usn_reserve + amount <= u128::MAX && total_supply + minted <= u128::MAX ==> (
            redeem_quote(minted, (total_supply + minted) as u128, (usn_reserve + amount) as u128)
                matches Ok(paid) ==> paid <= amount)
        }),
{
    let minted = deposit_quote(amount, total_supply, usn_reserve)->Ok_0;
    let s1 = total_supply + 1;
    let r = usn_reserve as int;
    let a = amount as int;
    let d = minted as int;
    assert(d == a * s1 / r);
    lemma_floor_div_times(a * s1, r, d);
    if usn_reserve + amount <= u128::MAX && total_supply + minted <= u128::MAX {
        let den = total_supply + minted + 1;
        let num = d * (r + a);
        assert(num <= a * den) by (nonlinear_arith)
            requires
                d * r <= a * s1,
                den == s1 + d,
                num == d * (r + a),
                a >= 0,
                d >= 0,
        ;
        if redeem_quote(minted, (total_supply + minted) as u128, (usn_reserve + amount) as u128) is Ok {
            let paid = num / den;
            assert(paid <= a) by (nonlinear_arith)
                requires
                    num <= a * den,
                    den > 0,
                    paid == num / den,
            ;
        }
    }
}

/// A deposit never lowers the USN backing of a dUSN: after `amount` USN comes in
/// and its quote of dUSN is minted, `reserve / (supply + 1)` is at least what it was.
pub proof fn lemma_deposit_keeps_price(amount: u128, total_supply: u128, usn_reserve: u128)
    requires
        deposit_quote(amount, total_supply, usn_reserve) is Ok,
    ensures
        ({
            let minted = deposit_quote(amount, total_supply, usn_reserve)->Ok_0;
            (usn_reserve + amount) * (total_supply + 1) >= usn_reserve * (total_supply + minted
                + 1)
        }),
{
    let minted = deposit_quote(amount, total_supply, usn_reserve)->Ok_0;
    let s1 = total_supply + 1;
    let r = usn_reserve as int;
    let a = amount as int;
    let d = minted as int;
    lemma_floor_div_times(a * s1, r, d);
    assert((r + a) * s1 >= r * (s1 + d)) by (nonlinear_arith)
        requires
            d * r <= a * s1,
    ;
}

/// A redemption that settles never lowers the USN backing of a dUSN: after
/// `amount` dUSN leave the supply and their quote of USN leaves the reserve,
/// `reserve / (supply + 1)` is at least what it was.
pub proof fn lemma_redeem_keeps_price(amount: u128, total_supply: u128, usn_reserve: u128)
    requires
        redeem_quote(amount, total_supply, usn_reserve) is Ok,
    ensures
        ({
            let paid = redeem_quote(amount, total_supply, usn_reserve)->Ok_0;
            (usn_reserve - paid) * (total_supply + 1) >= usn_reserve * (total_supply - amount + 1)
        }),
{
    let paid = redeem_quote(amount, total_supply, usn_reserve)->Ok_0;
    let s1 = total_supply + 1;
    let r = usn_reserve as int;
    let d = amount as int;
    let u = paid as int;
    lemma_floor_div_times(d * r, s1, u);
    assert((r - u) * s1 >= r * (s1 - d)) by (nonlinear_arith)
        requires
            u * s1 <= d * r,
    ;
}

proof fn lemma_messages_differ()
    ensures
        "deposit"@ != "redeem"@,
{
    reveal_strlit("deposit");
    reveal_strlit("redeem");
    assert("deposit"@.len() != "redeem"@.len());
}

/// Whatever its message, USN that the vault accepts joins the reserve in full
/// and is sent on to the Ref pool in full.
pub proof fn lemma_accepted_usn_joins_reserve(
    c: ContractView,
    sender_id: Seq<char>,
    amount: u128,
    msg: Seq<char>,
    dusn_total_supply: u128,
)
    requires
        on_transfer_spec(c, c.usn_token_account_id, sender_id, amount, msg, dusn_total_supply) is Ok,
    ensures
        ({
            let (next, outcome, _) = on_transfer_spec(
                c,
                c.usn_token_account_id,
                sender_id,
                amount,
                msg,
                dusn_total_supply,
            )->Ok_0;
            &&& next == c.with_reserve((c.usn_reserve + amount) as u128)
            &&& c.usn_reserve + amount <= u128::MAX
            &&& outcome.reply == ReplyView::Promise(add_stable_liquidity_plan(c, amount))
        }),
{
}

/// Whatever its message, dUSN that the vault accepts is burned in full, and the
/// USN reserve stays where it was.
pub proof fn lemma_accepted_dusn_is_burned(
    c: ContractView,
    sender_id: Seq<char>,
    amount: u128,
    msg: Seq<char>,
    dusn_total_supply: u128,
)
    requires
        c.usn_token_account_id != c.current_account_id,
        on_transfer_spec(c, c.current_account_id, sender_id, amount, msg, dusn_total_supply) is Ok,
    ensures
        ({
            let (next, outcome, _) = on_transfer_spec(
                c,
                c.current_account_id,
                sender_id,
                amount,
                msg,
                dusn_total_supply,
            )->Ok_0;
            &&& next == c
            &&& outcome.burn == Some(LedgerChangeView { account_id: c.current_account_id, amount })
        }),
{
}

/// A deposit never lowers the USN backing of a dUSN: with the reserve the
/// deposit leaves and the dUSN it mints, `reserve / (supply + 1)` is at least
/// what it was.
pub proof fn lemma_deposit_transition_keeps_price(
    c: ContractView,
    sender_id: Seq<char>,
    amount: u128,
    dusn_total_supply: u128,
)
    requires
        on_transfer_spec(
            c,
            c.usn_token_account_id,
            sender_id,
            amount,
            "deposit"@,
            dusn_total_supply,
        ) is Ok,
    ensures
        ({
            let (next, outcome, _) = on_transfer_spec(
                c,
                c.usn_token_account_id,
                sender_id,
                amount,
                "deposit"@,
                dusn_total_supply,
            )->Ok_0;
            &&& outcome.mint is Some
            &&& outcome.mint->Some_0.account_id == sender_id
            &&& next.usn_reserve * (dusn_total_supply + 1) >= c.usn_reserve * (dusn_total_supply
                + outcome.mint->Some_0.amount + 1)
        }),
{
    lemma_deposit_keeps_price(amount, dusn_total_supply, c.usn_reserve);
}

/// Depositing USN and then redeeming every dUSN the deposit minted is paid no
/// more USN than was deposited.
pub proof fn lemma_round_trip_pays_at_most_deposit(
    c: ContractView,
    sender_id: Seq<char>,
    amount: u128,
    dusn_total_supply: u128,
)
    requires
        c.usn_token_account_id != c.current_account_id,
        on_transfer_spec(
            c,
            c.usn_token_account_id,
            sender_id,
            amount,
            "deposit"@,
            dusn_total_supply,
        ) is Ok,
    ensures
        ({
            let (next, outcome, _) = on_transfer_spec(
                c,
                c.usn_token_account_id,
                sender_id,
                amount,
                "deposit"@,
                dusn_total_supply,
            )->Ok_0;
            let minted = outcome.mint->Some_0.amount;
            dusn_total_supply + minted <= u128::MAX ==> (on_transfer_spec(
                next,
                c.current_account_id,
                sender_id,
                minted,
                "redeem"@,
                (dusn_total_supply + minted) as u128,
            ) matches Ok((_, redemption, _)) ==> exists|paid: u128|
                paid <= amount && redemption.reply == ReplyView::Promise(
                    #[trigger] withdraw_and_transfer_plan(next, sender_id, paid, minted),
                ))
        }),
{
    lemma_messages_differ();
    lemma_deposit_then_redeem_creates_no_usn(amount, dusn_total_supply, c.usn_reserve);
    let (next, outcome, _) = on_transfer_spec(
        c,
        c.usn_token_account_id,
        sender_id,
        amount,
        "deposit"@,
        dusn_total_supply,
    )->Ok_0;
    let minted = outcome.mint->Some_0.amount;
    if dusn_total_supply + minted <= u128::MAX {
        let supply = (dusn_total_supply + minted) as u128;
        if on_transfer_spec(next, c.current_account_id, sender_id, minted, "redeem"@, supply) is Ok {
            let paid = redeem_quote(minted, supply, next.usn_reserve)->Ok_0;
            assert(withdraw_and_transfer_plan(next, sender_id, paid, minted)
                == withdraw_and_transfer_plan(next, sender_id, paid, minted));
        }
    }
}

/// A redemption whose USN transfer fails hands back, to the redeemer, exactly
/// the dUSN it burned, and leaves the USN reserve where it was.
pub proof fn lemma_failed_redemption_restores(
    c: ContractView,
    sender_id: Seq<char>,
    amount: u128,
    dusn_total_supply: u128,
)
    requires
        c.usn_token_account_id != c.current_account_id,
        on_transfer_spec(c, c.current_account_id, sender_id, amount, "redeem"@, dusn_total_supply)
            is Ok,
    ensures
        ({
            let (next, outcome, _) = on_transfer_spec(
                c,
                c.current_account_id,
                sender_id,
                amount,
                "redeem"@,
                dusn_total_supply,
            )->Ok_0;
            let paid = redeem_quote(amount, dusn_total_supply, c.usn_reserve)->Ok_0;
            &&& next == c
            &&& outcome.mint is None
            &&& outcome.burn == Some(LedgerChangeView { account_id: c.current_account_id, amount })
            &&& outcome.reply == ReplyView::Promise(
                withdraw_and_transfer_plan(c, sender_id, paid, amount),
            )
            &&& settle_spec(next, false, sender_id, paid, amount) == Ok::<(ContractView, Option<LedgerChangeView>, bool), ContractError>(
                (c, Some(LedgerChangeView { account_id: sender_id, amount }), false),
            )
        }),
{
    lemma_messages_differ();
}

/// A redemption that settles takes exactly its quoted payout out of the USN
/// reserve, burns exactly the dUSN redeemed, and never lowers the USN backing
/// of the dUSN that remain.
pub proof fn lemma_settled_redemption_keeps_price(
    c: ContractView,
    sender_id: Seq<char>,
    amount: u128,
    dusn_total_supply: u128,
)
    requires
        c.usn_token_account_id != c.current_account_id,
        amount <= dusn_total_supply,
        on_transfer_spec(c, c.current_account_id, sender_id, amount, "redeem"@, dusn_total_supply)
            is Ok,
    ensures
        ({
            let (next, outcome, _) = on_transfer_spec(
                c,
                c.current_account_id,
                sender_id,
                amount,
                "redeem"@,
                dusn_total_supply,
            )->Ok_0;
            let paid = redeem_quote(amount, dusn_total_supply, c.usn_reserve)->Ok_0;
            &&& paid <= c.usn_reserve
            &&& outcome.burn == Some(LedgerChangeView { account_id: c.current_account_id, amount })
            &&& settle_spec(next, true, sender_id, paid, amount) == Ok::<(ContractView, Option<LedgerChangeView>, bool), ContractError>(
                (c.with_reserve((c.usn_reserve - paid) as u128), None::<LedgerChangeView>, true),
            )
            &&& (c.usn_reserve - paid) * (dusn_total_supply + 1) >= c.usn_reserve * (
            dusn_total_supply - amount + 1)
        }),
{
    lemma_messages_differ();
    let paid = redeem_quote(amount, dusn_total_supply, c.usn_reserve)->Ok_0;
    let s1 = dusn_total_supply + 1;
    let r = c.usn_reserve as int;
    let d = amount as int;
    lemma_floor_div_times(d * r, s1, paid as int);
    assert(d * r <= s1 * r) by (nonlinear_arith)
        requires
            d < s1,
            r >= 0,
    ;
    assert(paid <= r) by (nonlinear_arith)
        requires
            paid * s1 <= s1 * r,
            s1 > 0,
    ;
    lemma_redeem_keeps_price(amount, dusn_total_supply, c.usn_reserve);
}

/// Every shipped network configuration names valid NEAR accounts for the Ref
/// exchange, the Ref farm and the reward token, so the Ref calls built from it
/// are refused only for an invalid USN token id.
pub proof fn lemma_network_configs_name_valid_accounts(network: Network)
    ensures
        near_account_id_rules(network_config(network).ref_address),
        near_account_id_rules(network_config(network).farm_address),
        near_account_id_rules(network_config(network).reward_token_id),
{
    reveal_strlit("v2.ref-finance.near");
    reveal_strlit("boostfarm.ref-labs.near");
    reveal_strlit("usn");
    reveal_strlit("ref-finance-101.testnet");
    reveal_strlit("boostfarm.ref-finance.testnet");
    reveal_strlit("usdc.fakes.testnet");
    reveal_strlit("ref.test.near");
    reveal_strlit("boostfarm-ref.test.near");
}

/// The plan chained first in `first.then(second)`.
pub open spec fn first_step(p: PlanView) -> PlanView {
    match p {
        PlanView::Then(a, _) => *a,
        PlanView::Call(_) => p,
    }
}

/// The plan chained second in `first.then(second)`.
pub open spec fn second_step(p: PlanView) -> PlanView {
    match p {
        PlanView::Then(_, b) => *b,
        PlanView::Call(_) => p,
    }
}

/// Whether `p` is the single call `receiver.method` (any deposit and gas).
pub open spec fn calls(p: PlanView, receiver: Seq<char>, method: MethodView) -> bool {
    match p {
        PlanView::Call(c) => c.receiver_id == receiver && c.method == method,
        PlanView::Then(_, _) => false,
    }
}

/// Whether `p` is the single call `receiver.method` with `deposit` attached.
pub open spec fn calls_paying(
    p: PlanView,
    receiver: Seq<char>,
    method: MethodView,
    deposit: u128,
) -> bool {
    match p {
        PlanView::Call(c) => c.receiver_id == receiver && c.method == method && c.attached_deposit
            == deposit,
        PlanView::Then(_, _) => false,
    }
}

/// `p` sends `amount` USN to the configured Ref exchange, adds exactly that
/// amount (and no second token) to the configured stable pool, then has this
/// contract stake the shares.
pub open spec fn adds_to_configured_pool(p: PlanView, c: ContractView, amount: u128) -> bool {
    &&& p is Then
    &&& first_step(p) is Then
    &&& calls_paying(
        first_step(first_step(p)),
        c.usn_token_account_id,
        MethodView::FtTransferCall {
            receiver_id: c.ref_config.ref_address,
            amount,
            memo: None,
            msg: Seq::empty(),
        },
        1,
    )
    &&& calls_paying(
        second_step(first_step(p)),
        c.ref_config.ref_address,
        MethodView::AddStableLiquidity {
            pool_id: c.ref_config.pool_id,
            amounts: seq![amount, 0],
            min_shares: 0,
        },
        10_000_000_000_000_000_000_000,
    )
    &&& calls_paying(
        second_step(p),
        c.current_account_id,
        MethodView::StakeAfterAddingLiquidity,
        0,
    )
}

/// `p` reads the configured pool's share price, removes `amount` USN from the
/// configured pool on the configured exchange, and withdraws `amount` USN.
pub open spec fn frees_from_configured_pool(p: PlanView, c: ContractView, amount: u128) -> bool {
    &&& p is Then
    &&& first_step(p) is Then
    &&& first_step(first_step(p)) is Then
    &&& calls(
        first_step(first_step(first_step(p))),
        c.ref_config.ref_address,
        MethodView::GetPoolSharePrice { pool_id: c.ref_config.pool_id },
    )
    &&& calls(
        second_step(first_step(first_step(p))),
        c.ref_config.farm_address,
        MethodView::UnstakeLpSharesAfterGettingSharePrice { amount },
    )
    &&& calls(
        second_step(first_step(p)),
        c.ref_config.ref_address,
        MethodView::RemoveLiquidityByTokens {
            pool_id: c.ref_config.pool_id,
            amounts: seq![amount, 0],
            max_burn_shares: amount,
        },
    )
    &&& calls(
        second_step(p),
        c.ref_config.ref_address,
        MethodView::Withdraw {
            token_id: c.usn_token_account_id,
            amount,
            unregister: Some(false),
        },
    )
}

/// `p` frees `paid` USN from the configured pool, transfers `paid` USN of the
/// USN token to `account_id`, then settles `paid` USN against `burned` dUSN.
pub open spec fn pays_out(
    p: PlanView,
    c: ContractView,
    account_id: Seq<char>,
    paid: u128,
    burned: u128,
) -> bool {
    &&& p is Then
    &&& frees_from_configured_pool(first_step(p), c, paid)
    &&& second_step(p) is Then
    &&& calls_paying(
        first_step(second_step(p)),
        c.usn_token_account_id,
        MethodView::FtTransfer { receiver_id: account_id, amount: paid, memo: None },
        1,
    )
    &&& calls(
        second_step(second_step(p)),
        c.current_account_id,
        MethodView::AfterUsnTransfer {
            account_id,
            usn_return_amount: paid,
            dusn_received_amount: burned,
        },
    )
}

/// Adding liquidity puts exactly the given USN into the configured pool of the
/// configured exchange, whatever the configuration.
pub proof fn lemma_add_liquidity_uses_configured_pool(c: ContractView, amount: u128)
    ensures
        adds_to_configured_pool(add_stable_liquidity_plan(c, amount), c, amount),
{
}

/// Unstaking reads the price of, and removes liquidity from, the configured
/// pool of the configured exchange, and withdraws exactly the given USN.
pub proof fn lemma_unstake_uses_configured_pool(c: ContractView, amount: u128)
    ensures
        frees_from_configured_pool(unstake_plan(c, amount), c, amount),
{
}

/// Paying a redeemer frees the USN from the configured pool and sends exactly
/// that USN to the redeemer before settling.
pub proof fn lemma_payout_uses_configured_pool(
    c: ContractView,
    account_id: Seq<char>,
    amount: u128,
    dusn_received_amount: u128,
)
    ensures
        pays_out(
            withdraw_and_transfer_plan(c, account_id, amount, dusn_received_amount),
            c,
            account_id,
            amount,
            dusn_received_amount,
        ),
{
}

/// Only a `"deposit"` mints dUSN: USN or dUSN arriving with any other message
/// (Ref rewards, a redemption, no message) mints nothing.
pub proof fn lemma_only_deposit_mints(
    c: ContractView,
    token_id: Seq<char>,
    sender_id: Seq<char>,
    amount: u128,
    msg: Seq<char>,
    dusn_total_supply: u128,
)
    requires
        msg != "deposit"@,
        on_transfer_spec(c, token_id, sender_id, amount, msg, dusn_total_supply) is Ok,
    ensures
        on_transfer_spec(c, token_id, sender_id, amount, msg, dusn_total_supply)->Ok_0.1.mint
            is None,
{
}

/// A deposit mints `amount * (supply + 1) / reserve` dUSN, rounded down, to its
/// sender, and every USN transfer the vault accepts, whatever its message, adds
/// exactly its amount to the reserve and sends exactly that amount to the
/// configured pool.
pub proof fn lemma_usn_transfer_effects(
    c: ContractView,
    sender_id: Seq<char>,
    amount: u128,
    msg: Seq<char>,
    dusn_total_supply: u128,
)
    requires
        on_transfer_spec(c, c.usn_token_account_id, sender_id, amount, msg, dusn_total_supply)
            is Ok,
    ensures
        ({
            let (next, outcome, _) = on_transfer_spec(
                c,
                c.usn_token_account_id,
                sender_id,
                amount,
                msg,
                dusn_total_supply,
            )->Ok_0;
            &&& next.usn_reserve == c.usn_reserve + amount
            &&& outcome.burn is None
            &&& outcome.reply is Promise
            &&& adds_to_configured_pool(outcome.reply->Promise_0, c, amount)
            &&& msg == "deposit"@ ==> {
                &&& amount >= 10_000_000_000_000_000_000
                &&& c.usn_reserve > 0
                &&& outcome.mint is Some
                &&& outcome.mint->Some_0.account_id == sender_id
                &&& outcome.mint->Some_0.amount == amount * (dusn_total_supply + 1)
                    / (c.usn_reserve as int)
            }
        }),
{
}

/// A redemption pays `amount * reserve / (supply + 1)` USN, rounded down, and
/// succeeds only when that payout is at least 10 USN: it burns the redeemed
/// dUSN and answers with the payout to the redeemer from the configured pool.
pub proof fn lemma_redemption_pays_at_least_minimum(
    c: ContractView,
    sender_id: Seq<char>,
    amount: u128,
    dusn_total_supply: u128,
)
    requires
        c.usn_token_account_id != c.current_account_id,
        on_transfer_spec(c, c.current_account_id, sender_id, amount, "redeem"@, dusn_total_supply)
            is Ok,
    ensures
        ({
            let (next, outcome, _) = on_transfer_spec(
                c,
                c.current_account_id,
                sender_id,
                amount,
                "redeem"@,
                dusn_total_supply,
            )->Ok_0;
            let paid = amount * c.usn_reserve / (dusn_total_supply + 1);
            &&& paid >= 10_000_000_000_000_000_000
            &&& next == c
            &&& outcome.mint is None
            &&& outcome.burn == Some(LedgerChangeView { account_id: c.current_account_id, amount })
            &&& outcome.reply is Promise
            &&& pays_out(outcome.reply->Promise_0, c, sender_id, paid as u128, amount)
        }),
{
    lemma_messages_differ();
}

/// A redemption whose payout `amount * reserve / (supply + 1)` is below 10 USN
/// is refused: as too small, or for the arithmetic of the refusal's message.
pub proof fn lemma_small_redemption_refused(
    c: ContractView,
    sender_id: Seq<char>,
    amount: u128,
    dusn_total_supply: u128,
)
    requires
        dusn_total_supply < u128::MAX,
        amount * c.usn_reserve <= u128::MAX,
        amount * c.usn_reserve / (dusn_total_supply + 1) < 10_000_000_000_000_000_000,
    ensures
        ({
            let r = on_transfer_spec(
                c,
                c.current_account_id,
                sender_id,
                amount,
                "redeem"@,
                dusn_total_supply,
            );
            &&& r is Err
            &&& r->Err_0 is RedeemTooSmall || r->Err_0 is Overflow || r->Err_0 is DivisionByZero
        }),
{
    lemma_messages_differ();
}

/// The number a string of decimal digits denotes.
pub open spec fn decimal_value(s: Seq<char>) -> int
    decreases s.len(),
{
    if s.len() == 0 {
        0
    } else {
        decimal_value(s.drop_last()) * 10 + (s.last() as int - '0' as int)
    }
}

proof fn lemma_digit_char(d: nat)
    requires
        d < 10,
    ensures
        digit_char(d) as int - '0' as int == d,
        '0' <= digit_char(d) <= '9',
{
}

/// The decimal notation of a number is made of digits, has no leading zero,
/// and denotes that number.
pub proof fn lemma_decimal_denotes(n: nat)
    ensures
        decimal_value(decimal(n)) == n,
        decimal(n).len() > 0,
        forall|i: int|
            0 <= i < decimal(n).len() ==> '0' <= #[trigger] decimal(n)[i] && decimal(n)[i] <= '9',
        decimal(n)[0] == '0' ==> n == 0,
    decreases n,
{
    lemma_digit_char(n % 10);
    if n < 10 {
        assert(decimal(n).drop_last() =~= Seq::<char>::empty());
        assert(decimal_value(decimal(n).drop_last()) == 0);
    } else {
        lemma_decimal_denotes(n / 10);
        let s = decimal(n);
        assert(s.drop_last() =~= decimal(n / 10));
        assert(s.last() == digit_char(n % 10));
        assert(n == (n / 10) * 10 + n % 10);
    }
}

/// The deposit quote is `amount * (supply + 1) / reserve`, rounded down, and is
/// given exactly when that fits and the reserve is not empty.
pub proof fn lemma_deposit_quote_exact(amount: u128, total_supply: u128, usn_reserve: u128)
    ensures
        deposit_quote(amount, total_supply, usn_reserve) is Ok <==> (total_supply < u128::MAX
            && amount * (total_supply + 1) <= u128::MAX && usn_reserve > 0),
        deposit_quote(amount, total_supply, usn_reserve) is Ok ==> deposit_quote(
            amount,
            total_supply,
            usn_reserve,
        )->Ok_0 == amount * (total_supply + 1) / (usn_reserve as int),
{
}

/// The redemption quote is `amount * reserve / (supply + 1)`, rounded down, and
/// is given exactly when that fits.
pub proof fn lemma_redeem_quote_exact(amount: u128, total_supply: u128, usn_reserve: u128)
    ensures
        redeem_quote(amount, total_supply, usn_reserve) is Ok <==> (total_supply < u128::MAX
            && amount * usn_reserve <= u128::MAX),
        redeem_quote(amount, total_supply, usn_reserve) is Ok ==> redeem_quote(
            amount,
            total_supply,
            usn_reserve,
        )->Ok_0 == amount * usn_reserve / (total_supply + 1),
{
}

/// The LP shares to unstake are `share_price * amount / 99_500_000`, rounded
/// down, given exactly when the product fits.
pub proof fn lemma_unstake_shares_exact(share_price: u128, amount: u128)
    ensures
        unstake_shares_quote(share_price, amount) is Ok <==> share_price * amount <= u128::MAX,
        unstake_shares_quote(share_price, amount) is Ok ==> unstake_shares_quote(
            share_price,
            amount,
        )->Ok_0 == share_price * amount / 99_500_000,
{
}

/// A `"deposit"` is refused unless it is at least 10 USN of the USN token.
pub proof fn lemma_deposit_refusals(
    c: ContractView,
    token_id: Seq<char>,
    sender_id: Seq<char>,
    amount: u128,
    dusn_total_supply: u128,
)
    ensures
        token_id != c.usn_token_account_id ==> on_transfer_spec(
            c,
            token_id,
            sender_id,
            amount,
            "deposit"@,
            dusn_total_supply,
        ) == Err::<(ContractView, OnTransferOutcomeView, Option<PlanView>), _>(
            ContractError::OnlyUsnCanBeDeposited,
        ),
        token_id == c.usn_token_account_id && amount < 10_000_000_000_000_000_000 ==> on_transfer_spec(
            c,
            token_id,
            sender_id,
            amount,
            "deposit"@,
            dusn_total_supply,
        ) == Err::<(ContractView, OnTransferOutcomeView, Option<PlanView>), _>(
            ContractError::DepositTooSmall,
        ),
{
}

/// A `"redeem"` is refused unless the tokens are this contract's dUSN.
pub proof fn lemma_redeem_only_dusn(
    c: ContractView,
    token_id: Seq<char>,
    sender_id: Seq<char>,
    amount: u128,
    dusn_total_supply: u128,
)
    requires
        token_id != c.current_account_id,
    ensures
        on_transfer_spec(c, token_id, sender_id, amount, "redeem"@, dusn_total_supply) == Err::<
            (ContractView, OnTransferOutcomeView, Option<PlanView>),
            _,
        >(ContractError::OnlyDusnCanBeRedeemed),
{
    lemma_messages_differ();
}

/// A token that is neither USN nor dUSN, sent with any message but `"deposit"`
/// or `"redeem"`, is kept: nothing is minted or burned, the reserve stays, and
/// the answer is that no token is returned.
pub proof fn lemma_other_tokens_kept(
    c: ContractView,
    token_id: Seq<char>,
    sender_id: Seq<char>,
    amount: u128,
    msg: Seq<char>,
    dusn_total_supply: u128,
)
    requires
        token_id != c.usn_token_account_id,
        token_id != c.current_account_id,
        msg != "deposit"@,
        msg != "redeem"@,
    ensures
        on_transfer_spec(c, token_id, sender_id, amount, msg, dusn_total_supply) == Ok::<
            _,
            ContractError,
        >(
            (
                c,
                OnTransferOutcomeView { mint: None, burn: None, reply: ReplyView::Value(0) },
                None::<PlanView>,
            ),
        ),
{
}

/// Settling a redemption: when the USN transfer succeeded, exactly the paid USN
/// leaves the reserve (refused if the reserve holds less) and nothing is minted;
/// when it failed, the reserve stays and exactly the burned dUSN go back to the
/// redeemer.
pub proof fn lemma_settlement_effects(
    c: ContractView,
    promise_success: bool,
    account_id: Seq<char>,
    usn_return_amount: u128,
    dusn_received_amount: u128,
)
    ensures
        ({
            let r = settle_spec(
                c,
                promise_success,
                account_id,
                usn_return_amount,
                dusn_received_amount,
            );
            &&& r is Ok <==> (!promise_success || usn_return_amount <= c.usn_reserve)
            &&& r is Err ==> r->Err_0 == ContractError::Overflow
            &&& r is Ok ==> r->Ok_0.2 == promise_success
            &&& r is Ok && promise_success ==> r->Ok_0.0 == c.with_reserve(
                (c.usn_reserve - usn_return_amount) as u128,
            ) && r->Ok_0.1 is None
            &&& r is Ok && !promise_success ==> r->Ok_0.0 == c && r->Ok_0.1 == Some(
                LedgerChangeView { account_id, amount: dusn_received_amount },
            )
        }),
{
}

/// Staking sends exactly the minted LP shares of the configured pool token from
/// the configured exchange to the configured farm, unlocked.
pub proof fn lemma_stake_uses_configured_farm(c: ContractView, shares: u128)
    ensures
        calls_paying(
            stake_plan(c, shares),
            c.ref_config.ref_address,
            MethodView::MftTransferCall {
                receiver_id: c.ref_config.farm_address,
                token_id: c.ref_config.token_id,
                amount: shares,
                msg: "\"Free\""@,
            },
            1,
        ),
{
}

/// Unstaking withdraws exactly the given LP shares of the configured pool's seed
/// (`"<exchange>@<pool id>"`) from the configured farm, without unlocking any.
pub proof fn lemma_unlock_uses_configured_seed(c: ContractView, shares: u128)
    ensures
        calls_paying(
            unlock_seed_plan(c, shares),
            c.ref_config.farm_address,
            MethodView::UnlockAndWithdrawSeed {
                seed_id: c.ref_config.ref_address + seq!['@'] + decimal(
                    c.ref_config.pool_id as nat,
                ),
                unlock_amount: 0,
                withdraw_amount: shares,
            },
            1_000_000_000_000_000_000_000_000,
        ),
{
}

/// Claiming claims the rewards of the configured pool's seed on the configured
/// farm, then withdraws all of the configured reward token.
pub proof fn lemma_claim_uses_configured_seed(c: ContractView)
    ensures
        ({
            let p = claim_reward_plan(c);
            &&& p is Then
            &&& calls(
                first_step(p),
                c.ref_config.farm_address,
                MethodView::ClaimRewardBySeed {
                    seed_id: c.ref_config.ref_address + seq!['@'] + decimal(
                        c.ref_config.pool_id as nat,
                    ),
                },
            )
            &&& calls(
                second_step(p),
                c.ref_config.farm_address,
                MethodView::WithdrawReward { token_id: c.ref_config.reward_token_id, amount: None },
            )
        }),
{
}

/// Storage is registered for this contract, 0.1 NEAR each, first on the
/// configured exchange, then on the configured farm.
pub proof fn lemma_storage_for_this_contract(c: ContractView)
    ensures
        ({
            let p = storage_deposit_plan(c);
            let m = MethodView::StorageDeposit {
                account_id: Some(c.current_account_id),
                registration_only: Some(false),
            };
            &&& p is Then
            &&& calls_paying(first_step(p), c.ref_config.ref_address, m, 100_000_000_000_000_000_000_000)
            &&& calls_paying(second_step(p), c.ref_config.farm_address, m, 100_000_000_000_000_000_000_000)
        }),
{
}

} // verus!
