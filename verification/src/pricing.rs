//! The exchange rate between USN and dUSN.
//!
//! One dUSN is worth `usn_reserve / (dusn_total_supply + 1)` USN. The `+ 1`
//! keeps the first deposit from dividing by zero; divisions round down.

use vstd::prelude::*;
use crate::errors::ContractError;
use crate::constants::SHARE_PRICE_DIVISOR;

verus! {

/// `a * b / c` in `u128`, failing as the contract's arithmetic fails: on an
/// overflowing product first, then on a zero divisor.
pub open spec fn mul_div(a: int, b: int, c: int) -> Result<u128, ContractError> {
    if a * b > u128::MAX {
        Err(ContractError::Overflow)
    } else if c == 0 {
        Err(ContractError::DivisionByZero)
    } else {
        Ok((a * b / c) as u128)
    }
}

/// The dUSN minted for a deposit of `amount` USN: `amount * (supply + 1) / reserve`.
pub open spec fn deposit_quote(amount: u128, total_supply: u128, usn_reserve: u128) -> Result<
    u128,
    ContractError,
> {
    if total_supply + 1 > u128::MAX {
        Err(ContractError::Overflow)
    } else {
        mul_div(amount as int, total_supply + 1, usn_reserve as int)
    }
}

/// The USN paid for redeeming `amount` dUSN: `amount * reserve / (supply + 1)`.
pub open spec fn redeem_quote(amount: u128, total_supply: u128, usn_reserve: u128) -> Result<
    u128,
    ContractError,
> {
    if total_supply + 1 > u128::MAX {
        Err(ContractError::Overflow)
    } else {
        mul_div(amount as int, usn_reserve as int, total_supply + 1)
    }
}

/// The figure a refused small redemption quotes: `10 * (supply + 1) / reserve`.
pub open spec fn min_redeem_quote(total_supply: u128, usn_reserve: u128) -> Result<
    u128,
    ContractError,
> {
    if total_supply + 1 > u128::MAX {
        Err(ContractError::Overflow)
    } else {
        mul_div(10, total_supply + 1, usn_reserve as int)
    }
}

/// The LP shares to unstake to free `amount` USN at `share_price` (scaled by
/// 10^8), with a 0.5% buffer: `share_price * amount / 99_500_000`.
pub open spec fn unstake_shares_quote(share_price: u128, amount: u128) -> Result<
    u128,
    ContractError,
> {
    mul_div(share_price as int, amount as int, SHARE_PRICE_DIVISOR as int)
}

/// `a * b / c`, or the error of `mul_div`.
pub fn checked_mul_div(a: u128, b: u128, c: u128) -> (r: Result<u128, ContractError>)
    ensures
        r == mul_div(a as int, b as int, c as int),
{
    match a.checked_mul(b) {
        None => Err(ContractError::Overflow),
        Some(p) => {
            if c == 0 {
                Err(ContractError::DivisionByZero)
            } else {
                Ok(p / c)
            }
        },
    }
}

/// The dUSN minted for a deposit; see `deposit_quote`.
pub fn dusn_for_deposit(amount: u128, total_supply: u128, usn_reserve: u128) -> (r: Result<
    u128,
    ContractError,
>)
    ensures
        r == deposit_quote(amount, total_supply, usn_reserve),
{
    if total_supply == u128::MAX {
        return Err(ContractError::Overflow);
    }
    checked_mul_div(amount, total_supply + 1, usn_reserve)
}

/// The USN paid for a redemption; see `redeem_quote`.
pub fn usn_for_redeem(amount: u128, total_supply: u128, usn_reserve: u128) -> (r: Result<
    u128,
    ContractError,
>)
    ensures
        r == redeem_quote(amount, total_supply, usn_reserve),
{
    if total_supply == u128::MAX {
        return Err(ContractError::Overflow);
    }
    checked_mul_div(amount, usn_reserve, total_supply + 1)
}

/// The figure quoted when a redemption is too small; see `min_redeem_quote`.
pub fn min_dusn_for_redeem(total_supply: u128, usn_reserve: u128) -> (r: Result<
    u128,
    ContractError,
>)
    ensures
        r == min_redeem_quote(total_supply, usn_reserve),
{
    if total_supply == u128::MAX {
        return Err(ContractError::Overflow);
    }
    checked_mul_div(10, total_supply + 1, usn_reserve)
}

/// The LP shares to unstake; see `unstake_shares_quote`.
pub fn shares_to_unstake(share_price: u128, amount: u128) -> (r: Result<u128, ContractError>)
    ensures
        r == unstake_shares_quote(share_price, amount),
{
    checked_mul_div(share_price, amount, SHARE_PRICE_DIVISOR)
}

} // verus!
