//! Configuration tests: network endpoints and overrides.

use omni_box::config::{get_rpc_url, ChainOverrides, NearNetworkConfig};

#[test]
fn rpc_urls_match_their_networks() {
    assert_eq!(get_rpc_url(NearNetworkConfig::Testnet), "https://rpc.testnet.near.org");
    assert_eq!(get_rpc_url(NearNetworkConfig::Mainnet), "https://rpc.mainnet.near.org");
    assert_eq!(get_rpc_url(NearNetworkConfig::Local), "http://localhost:3030");
}

#[test]
fn overrides_carry_an_optional_url() {
    let none = ChainOverrides { node_url: None };
    assert!(none.node_url.is_none());
    let some = ChainOverrides { node_url: Some("http://localhost:18443".to_string()) };
    assert_eq!(some.node_url.as_deref(), Some("http://localhost:18443"));
}
