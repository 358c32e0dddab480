use vstd::prelude::*;

verus! {

/// Why the vault refuses a request. The contract aborts the call with the
/// matching message, which reverts every change the call made.
#[derive(Debug, Clone, Copy, PartialEq, Eq)]
pub enum ContractError {
    /// "Only USN can be deposited": a deposit came from another token.
    OnlyUsnCanBeDeposited,
    /// "USN Deposit amount should be more than 10".
    DepositTooSmall,
    /// "Only dUSN can be redeemed to USN": a redemption came from another token.
    OnlyDusnCanBeRedeemed,
    /// The redemption pays out less than 10 USN; `min_dusn_amount` is the figure
    /// the refusal message quotes, `10 * (total supply + 1) / reserve`.
    RedeemTooSmall { min_dusn_amount: u128 },
    /// An addition, subtraction or multiplication left the range of `u128`.
    Overflow,
    /// A division by a zero USN reserve.
    DivisionByZero,
    /// A configured address is not a valid NEAR account id.
    InvalidAccountId,
    /// The cross-contract call whose result a callback reads has failed.
    CallbackFailed,
}

} // verus!
