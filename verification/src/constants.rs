use vstd::prelude::*;

verus! {

/// 10^24 yocto, one NEAR.
pub const ONE_NEAR: u128 = 1_000_000_000_000_000_000_000_000;

/// 10^21 yocto, one milli-NEAR.
pub const MILLI_NEAR: u128 = 1_000_000_000_000_000_000;

/// The smallest deposit, attached to calls that demand a full access key.
pub const ONE_YOCTO: u128 = 1;

/// Gas for a `storage_deposit` call on a Ref contract.
pub const GAS_FOR_STORAGE_DEPOSIT: u64 = 5_000_000_000_000;

/// Gas for `ft_transfer_call` of USN to Ref.
pub const GAS_FOR_FT_TRANSFER_CALL: u64 = 8_000_000_000_000;

/// Gas for the liquidity and farming calls on Ref.
pub const GAS_FOR_ADD_LIQUIDITY: u64 = 17_000_000_000_000;

/// Gas for `mft_transfer_call` of LP shares to the Ref farm.
pub const GAS_FOR_MFT_TRANSFER_CALL: u64 = 18_000_000_000_000;

/// Gas for `add_stable_liquidity` on Ref.
pub const GAS_FOR_ADD_STABLE_LIQUIDITY: u64 = 6_000_000_000_000;

/// Gas for the callback that stakes freshly minted LP shares.
pub const GAS_FOR_STAKE: u64 = 23_000_000_000_000;

/// Gas for the `ft_transfer` of USN back to a redeemer.
pub const FT_TRANSFER_GAS: u64 = 5_000_000_000_000;

/// Gas for the callback that settles a redemption.
pub const AFTER_FT_TRANSFER_GAS: u64 = 5_000_000_000_000;

/// Ten USN (18 decimals): the smallest deposit, and the smallest redemption payout.
pub const MIN_USN_AMOUNT: u128 = 10_000_000_000_000_000_000;

/// The Ref share price is scaled by 10^8; dividing by 99.5% of that leaves a 0.5% buffer.
pub const SHARE_PRICE_DIVISOR: u128 = 99_500_000;

} // verus!
