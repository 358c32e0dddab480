//! Where the Ref Finance contracts live, on each network.

use vstd::prelude::*;
use crate::account::{decimal, push_decimal};

verus! {

/// The Ref Finance exchange and farm this vault uses, the stable pool it provides
/// liquidity to, that pool's LP token id, and the token its farm pays rewards in.
pub struct RefConfig {
    pub ref_address: &'static str,
    pub farm_address: &'static str,
    pub pool_id: u64,
    pub token_id: &'static str,
    pub reward_token_id: &'static str,
}

/// The network a build of the contract targets.
#[derive(Debug, Clone, Copy, PartialEq, Eq)]
pub enum Network {
    Mainnet,
    Testnet,
    /// Any other build: a local sandbox with test accounts.
    Sandbox,
}

/// The mathematical value of a [`RefConfig`].
pub struct RefConfigView {
    pub ref_address: Seq<char>,
    pub farm_address: Seq<char>,
    pub pool_id: u64,
    pub token_id: Seq<char>,
    pub reward_token_id: Seq<char>,
}

impl View for RefConfig {
    type V = RefConfigView;

    open spec fn view(&self) -> RefConfigView {
        RefConfigView {
            ref_address: self.ref_address@,
            farm_address: self.farm_address@,
            pool_id: self.pool_id,
            token_id: self.token_id@,
            reward_token_id: self.reward_token_id@,
        }
    }
}

/// The configuration of each network.
pub open spec fn network_config(network: Network) -> RefConfigView {
    match network {
        Network::Mainnet => RefConfigView {
            ref_address: "v2.ref-finance.near"@,
            farm_address: "boostfarm.ref-labs.near"@,
            pool_id: 3020,
            token_id: ":3020"@,
            reward_token_id: "usn"@,
        },
        Network::Testnet => RefConfigView {
            ref_address: "ref-finance-101.testnet"@,
            farm_address: "boostfarm.ref-finance.testnet"@,
            pool_id: 494,
            token_id: ":494"@,
            reward_token_id: "usdc.fakes.testnet"@,
        },
        Network::Sandbox => RefConfigView {
            ref_address: "ref.test.near"@,
            farm_address: "boostfarm-ref.test.near"@,
            pool_id: 3020,
            token_id: ":3020"@,
            reward_token_id: "usn"@,
        },
    }
}

/// The farm's seed of a pool: `"<exchange>@<pool id>"`.
pub open spec fn seed_id_of(ref_address: Seq<char>, pool_id: u64) -> Seq<char> {
    ref_address + seq!['@'] + decimal(pool_id as nat)
}

impl RefConfig {
    /// The configuration of `network`.
    pub fn for_network(network: Network) -> (c: RefConfig)
        ensures
            c@ == network_config(network),
    {
        match network {
            Network::Mainnet => RefConfig {
                ref_address: "v2.ref-finance.near",
                farm_address: "boostfarm.ref-labs.near",
                pool_id: 3020,
                token_id: ":3020",
                reward_token_id: "usn",
            },
            Network::Testnet => RefConfig {
                ref_address: "ref-finance-101.testnet",
                farm_address: "boostfarm.ref-finance.testnet",
                pool_id: 494,
                token_id: ":494",
                reward_token_id: "usdc.fakes.testnet",
            },
            Network::Sandbox => RefConfig {
                ref_address: "ref.test.near",
                farm_address: "boostfarm-ref.test.near",
                pool_id: 3020,
                token_id: ":3020",
                reward_token_id: "usn",
            },
        }
    }

    /// The farm seed of the configured pool, `"<ref_address>@<pool_id>"`.
    pub fn seed_id(&self) -> (s: String)
        ensures
            s@ == seed_id_of(self.ref_address@, self.pool_id),
    {
        let mut s = self.ref_address.to_owned();
        proof { reveal_strlit("@"); }
        s.append("@");
        push_decimal(&mut s, self.pool_id);
        s
    }
}

} // verus!
