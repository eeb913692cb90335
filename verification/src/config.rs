//! Network selection and per-chain overrides supplied by the caller.

use vstd::prelude::*;

verus! {

/// Which NEAR network the submitter talks to.
#[derive(Debug, Clone, Copy, PartialEq, Eq, Structural)]
pub enum NearNetworkConfig {
    Testnet,
    Mainnet,
    Local,
}

/// Caller-supplied overrides for one chain's connection.
#[derive(Debug, Clone)]
pub struct ChainOverrides {
    pub node_url: Option<String>,
}

/// The RPC endpoint for the chosen NEAR network.
pub fn get_rpc_url(network: NearNetworkConfig) -> (r: &'static str)
    ensures
        network is Testnet ==> r@ == "https://rpc.testnet.near.org"@,
        network is Mainnet ==> r@ == "https://rpc.mainnet.near.org"@,
        network is Local ==> r@ == "http://localhost:3030"@,
{
    match network {
        NearNetworkConfig::Testnet => "https://rpc.testnet.near.org",
        NearNetworkConfig::Mainnet => "https://rpc.mainnet.near.org",
        NearNetworkConfig::Local => "http://localhost:3030",
    }
}

} // verus!
