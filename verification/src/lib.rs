//! Verified core of the dUSN vault: a NEAR contract that mints dUSN against
//! deposited USN, redeems dUSN back into USN, and parks the USN reserve in a
//! Ref Finance stable pool.
//!
//! The library decides; the contract around it performs. Every decision is a
//! function from the vault's state and an incoming event to the next state and
//! a description of the cross-contract calls to schedule ([`plan::PromisePlan`]).

pub mod account;
pub mod constants;
pub mod contract;
pub mod errors;
pub mod ft_receiver;
pub mod laws;
pub mod plan;
pub mod pricing;
pub mod ref_config;
pub mod ref_function;
