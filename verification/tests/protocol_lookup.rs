//! The facade's constructors and the addressbook lookup.

use amm_sdk::address::Address;
use amm_sdk::chain::Chain;
use amm_sdk::chain::ProtocolType;
use amm_sdk::errors::Error;
use amm_sdk::protocol::Protocol;

fn addr_from_hex(s: &str) -> Address {
    let parsed: ethers_core::types::Address = s.parse().unwrap();
    Address::new(parsed.0)
}

#[test]
fn unknown_deployment_is_absence() {
    // No entry for a local development chain: the by-chain constructor
    // returns the absence signal, not an error and not an instance.
    let r = Protocol::new_with_chain(Chain::Ganache, ProtocolType::UniswapV2);
    assert!(r.is_none());
}

#[test]
fn mainnet_reference_deployment_is_listed() {
    let p = Protocol::new_with_chain(Chain::Mainnet, ProtocolType::UniswapV2).unwrap();
    assert_eq!(
        p.factory.address,
        addr_from_hex("0x5C69bEe701ef814a2B6a3EDD4B1652CB9cc5aA6f")
    );
    assert_eq!(
        p.router.address,
        addr_from_hex("0x7a250d5630B4cF539739dF2C595a6a3eAEc243DA")
    );
    assert_eq!(p.chain(), Some(Chain::Mainnet));
    assert_eq!(p.factory.protocol, ProtocolType::UniswapV2);
}

#[test]
fn bnb_chain_pancake_deployment_is_listed() {
    let p = Protocol::new_with_chain(Chain::BinanceSmartChain, ProtocolType::Pancakeswap).unwrap();
    assert_eq!(
        p.factory.address,
        addr_from_hex("0xcA143Ce32Fe78f1f7019d7d551a6402fC5350c73")
    );
    assert_eq!(
        p.router.address,
        addr_from_hex("0x10ED43C718714eb63d5aA57B78B54704E256024E")
    );
}

#[test]
fn sushiswap_is_not_listed_on_bnb_chain() {
    assert!(Protocol::new_with_chain(Chain::BinanceSmartChain, ProtocolType::Sushiswap).is_none());
}

#[test]
fn explicit_construction_leaves_chain_unset() {
    let factory = addr_from_hex("0x5C69bEe701ef814a2B6a3EDD4B1652CB9cc5aA6f");
    let router = addr_from_hex("0x7a250d5630B4cF539739dF2C595a6a3eAEc243DA");
    let mut p = Protocol::new(factory, router, ProtocolType::UniswapV2);
    assert_eq!(p.chain(), None);
    p.set_chain(Chain::Sepolia);
    assert_eq!(p.chain(), Some(Chain::Sepolia));
    assert_eq!(p.factory().address, factory);
    assert_eq!(p.router().address, router);
}

#[test]
fn error_descriptions_are_distinct() {
    let a = Error::InvalidPath.describe();
    let b = Error::InvalidSlippage.describe();
    let c = Error::InvalidAmount.describe();
    assert_ne!(a, b);
    assert_ne!(b, c);
    assert_ne!(a, c);
}
