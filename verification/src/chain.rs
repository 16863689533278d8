//! Network identifiers, protocol variants, the per-variant bytecode
//! fingerprint table, and the static addressbook of well-known deployments.

use vstd::prelude::*;
use crate::address::Address;
use crate::address::CodeHash;

verus! {

broadcast use vstd::array::group_array_axioms;

/// An identifier for a network the protocol may be deployed on.
#[derive(Clone, Copy, Debug, PartialEq, Eq, Structural, Hash)]
pub enum Chain {
    /// The main Ethereum network.
    Mainnet,
    /// The Goerli test network.
    Goerli,
    /// The Sepolia test network.
    Sepolia,
    /// The BNB Smart Chain main network.
    BinanceSmartChain,
    /// The Polygon main network.
    Polygon,
    /// A local Ganache development network.
    Ganache,
}

/// A protocol variant: which family of exchange contracts a deployment
/// belongs to. All variants here are fixed-fee pair protocols.
#[derive(Clone, Copy, Debug, PartialEq, Eq, Structural, Hash)]
pub enum ProtocolType {
    /// The reference fixed-fee pair protocol.
    UniswapV2,
    /// The Sushiswap deployment of the fixed-fee pair protocol.
    Sushiswap,
    /// The Pancakeswap deployment of the fixed-fee pair protocol.
    Pancakeswap,
}

/// The pair-contract bytecode fingerprint of the reference protocol.
pub open spec fn uniswap_v2_pair_hash() -> Seq<u8> {
    seq![
        0x96u8, 0xe8, 0xac, 0x42, 0x77, 0x19, 0x8f, 0xf8, 0xb6, 0xf7, 0x85, 0x47, 0x8a, 0xa9,
        0xa3, 0x9f, 0x40, 0x3c, 0xb7, 0x68, 0xdd, 0x02, 0xcb, 0xee, 0x32, 0x6c, 0x3e, 0x7d, 0xa3,
        0x48, 0x84, 0x5f,
    ]
}

/// The pair-contract bytecode fingerprint of the Sushiswap variant.
pub open spec fn sushiswap_pair_hash() -> Seq<u8> {
    seq![
        0xe1u8, 0x8a, 0x34, 0xeb, 0x0e, 0x04, 0xb0, 0x4f, 0x7a, 0x0a, 0xc2, 0x9a, 0x6e, 0x80,
        0x74, 0x8d, 0xca, 0x96, 0x31, 0x9b, 0x42, 0xc5, 0x4d, 0x67, 0x9c, 0xb8, 0x21, 0xdc, 0xa9,
        0x0c, 0x63, 0x03,
    ]
}

/// The pair-contract bytecode fingerprint of the Pancakeswap variant.
pub open spec fn pancakeswap_pair_hash() -> Seq<u8> {
    seq![
        0x00u8, 0xfb, 0x7f, 0x63, 0x07, 0x66, 0xe6, 0xa7, 0x96, 0x04, 0x8e, 0xa8, 0x7d, 0x01,
        0xac, 0xd3, 0x06, 0x8e, 0x8f, 0xf6, 0x7d, 0x07, 0x81, 0x48, 0xa3, 0xfa, 0x3f, 0x4a, 0x84,
        0xf6, 0x9b, 0xd5,
    ]
}

/// The fingerprint a variant uses on the given chain. Each variant here
/// deploys identical pair bytecode on every network it supports, so the
/// table falls back to the variant's generic fingerprint whenever the chain
/// is unknown or absent; the address derived with the fallback need not
/// resolve to a real deployment on such a chain.
pub open spec fn pair_code_hash_seq(protocol: ProtocolType, chain: Option<Chain>) -> Seq<u8> {
    match protocol {
        ProtocolType::UniswapV2 => uniswap_v2_pair_hash(),
        ProtocolType::Sushiswap => sushiswap_pair_hash(),
        ProtocolType::Pancakeswap => pancakeswap_pair_hash(),
    }
}

impl ProtocolType {
    /// The pair-contract bytecode fingerprint this variant uses on `chain`.
    /// An unknown or absent chain yields the variant's generic fallback
    /// fingerprint rather than an error.
    pub fn pair_code_hash(&self, chain: Option<Chain>) -> (r: CodeHash)
        ensures
            r@ == pair_code_hash_seq(*self, chain),
    {
        match self {
            ProtocolType::UniswapV2 => {
                let h = CodeHash::new(
                    [
                        0x96u8, 0xe8, 0xac, 0x42, 0x77, 0x19, 0x8f, 0xf8, 0xb6, 0xf7, 0x85, 0x47,
                        0x8a, 0xa9, 0xa3, 0x9f, 0x40, 0x3c, 0xb7, 0x68, 0xdd, 0x02, 0xcb, 0xee,
                        0x32, 0x6c, 0x3e, 0x7d, 0xa3, 0x48, 0x84, 0x5f,
                    ],
                );
                proof {
                    assert(h@ =~= uniswap_v2_pair_hash());
                }
                h
            },
            ProtocolType::Sushiswap => {
                let h = CodeHash::new(
                    [
                        0xe1u8, 0x8a, 0x34, 0xeb, 0x0e, 0x04, 0xb0, 0x4f, 0x7a, 0x0a, 0xc2, 0x9a,
                        0x6e, 0x80, 0x74, 0x8d, 0xca, 0x96, 0x31, 0x9b, 0x42, 0xc5, 0x4d, 0x67,
                        0x9c, 0xb8, 0x21, 0xdc, 0xa9, 0x0c, 0x63, 0x03,
                    ],
                );
                proof {
                    assert(h@ =~= sushiswap_pair_hash());
                }
                h
            },
            ProtocolType::Pancakeswap => {
                let h = CodeHash::new(
                    [
                        0x00u8, 0xfb, 0x7f, 0x63, 0x07, 0x66, 0xe6, 0xa7, 0x96, 0x04, 0x8e, 0xa8,
                        0x7d, 0x01, 0xac, 0xd3, 0x06, 0x8e, 0x8f, 0xf6, 0x7d, 0x07, 0x81, 0x48,
                        0xa3, 0xfa, 0x3f, 0x4a, 0x84, 0xf6, 0x9b, 0xd5,
                    ],
                );
                proof {
                    assert(h@ =~= pancakeswap_pair_hash());
                }
                h
            },
        }
    }
}

/// The factory address of the reference protocol's main-network deployment.
pub open spec fn uniswap_v2_factory_address() -> Seq<u8> {
    seq![
        0x5Cu8, 0x69, 0xbE, 0xe7, 0x01, 0xef, 0x81, 0x4a, 0x2B, 0x6a, 0x3E, 0xDD, 0x4B, 0x16,
        0x52, 0xCB, 0x9c, 0xc5, 0xaA, 0x6f,
    ]
}

/// The router address of the reference protocol's main-network deployment.
pub open spec fn uniswap_v2_router_address() -> Seq<u8> {
    seq![
        0x7au8, 0x25, 0x0d, 0x56, 0x30, 0xB4, 0xcF, 0x53, 0x97, 0x39, 0xdF, 0x2C, 0x59, 0x5a,
        0x6a, 0x3e, 0xAE, 0xc2, 0x43, 0xDA,
    ]
}

/// The factory address of the Sushiswap main-network deployment.
pub open spec fn sushiswap_factory_address() -> Seq<u8> {
    seq![
        0xC0u8, 0xAE, 0xe4, 0x78, 0xe3, 0x65, 0x8e, 0x26, 0x10, 0xc5, 0xF7, 0xA4, 0xA2, 0xE1,
        0x77, 0x7c, 0xE9, 0xe4, 0xf2, 0xAc,
    ]
}

/// The router address of the Sushiswap main-network deployment.
pub open spec fn sushiswap_router_address() -> Seq<u8> {
    seq![
        0xd9u8, 0xe1, 0xcE, 0x17, 0xf2, 0x64, 0x1f, 0x24, 0xaE, 0x83, 0x63, 0x7a, 0xb6, 0x6a,
        0x2c, 0xca, 0x9C, 0x37, 0x8B, 0x9F,
    ]
}

/// The factory address of the Pancakeswap deployment on the BNB chain.
pub open spec fn pancakeswap_factory_address() -> Seq<u8> {
    seq![
        0xcAu8, 0x14, 0x3C, 0xe3, 0x2F, 0xe7, 0x8f, 0x1f, 0x70, 0x19, 0xd7, 0xd5, 0x51, 0xa6,
        0x40, 0x2f, 0xC5, 0x35, 0x0c, 0x73,
    ]
}

/// The router address of the Pancakeswap deployment on the BNB chain.
pub open spec fn pancakeswap_router_address() -> Seq<u8> {
    seq![
        0x10u8, 0xED, 0x43, 0xC7, 0x18, 0x71, 0x4e, 0xb6, 0x3d, 0x5a, 0xA5, 0x7B, 0x78, 0xB5,
        0x47, 0x04, 0xE2, 0x56, 0x02, 0x4E,
    ]
}

/// The addressbook: the factory and router addresses of each well-known
/// deployment, by protocol variant and chain. Absent entries mean "no known
/// deployment", not an error.
pub open spec fn book_entry(protocol: ProtocolType, chain: Chain) -> Option<(Seq<u8>, Seq<u8>)> {
    match (protocol, chain) {
        (ProtocolType::UniswapV2, Chain::Mainnet) => Some(
            (uniswap_v2_factory_address(), uniswap_v2_router_address()),
        ),
        (ProtocolType::Sushiswap, Chain::Mainnet) => Some(
            (sushiswap_factory_address(), sushiswap_router_address()),
        ),
        (ProtocolType::Pancakeswap, Chain::BinanceSmartChain) => Some(
            (pancakeswap_factory_address(), pancakeswap_router_address()),
        ),
        _ => None,
    }
}

impl ProtocolType {
    /// Looks up the factory and router addresses of this variant's deployment
    /// on `chain`, or `None` when the addressbook lists no such deployment.
    pub fn try_addresses(&self, chain: Chain) -> (r: Option<(Address, Address)>)
        ensures
            match r {
                Some(pair) => book_entry(*self, chain) == Some((pair.0@, pair.1@)),
                None => book_entry(*self, chain) is None,
            },
    {
        match (self, chain) {
            (ProtocolType::UniswapV2, Chain::Mainnet) => {
                let factory = Address::new(
                    [
                        0x5Cu8, 0x69, 0xbE, 0xe7, 0x01, 0xef, 0x81, 0x4a, 0x2B, 0x6a, 0x3E, 0xDD,
                        0x4B, 0x16, 0x52, 0xCB, 0x9c, 0xc5, 0xaA, 0x6f,
                    ],
                );
                let router = Address::new(
                    [
                        0x7au8, 0x25, 0x0d, 0x56, 0x30, 0xB4, 0xcF, 0x53, 0x97, 0x39, 0xdF, 0x2C,
                        0x59, 0x5a, 0x6a, 0x3e, 0xAE, 0xc2, 0x43, 0xDA,
                    ],
                );
                proof {
                    assert(factory@ =~= uniswap_v2_factory_address());
                    assert(router@ =~= uniswap_v2_router_address());
                }
                Some((factory, router))
            },
            (ProtocolType::Sushiswap, Chain::Mainnet) => {
                let factory = Address::new(
                    [
                        0xC0u8, 0xAE, 0xe4, 0x78, 0xe3, 0x65, 0x8e, 0x26, 0x10, 0xc5, 0xF7, 0xA4,
                        0xA2, 0xE1, 0x77, 0x7c, 0xE9, 0xe4, 0xf2, 0xAc,
                    ],
                );
                let router = Address::new(
                    [
                        0xd9u8, 0xe1, 0xcE, 0x17, 0xf2, 0x64, 0x1f, 0x24, 0xaE, 0x83, 0x63, 0x7a,
                        0xb6, 0x6a, 0x2c, 0xca, 0x9C, 0x37, 0x8B, 0x9F,
                    ],
                );
                proof {
                    assert(factory@ =~= sushiswap_factory_address());
                    assert(router@ =~= sushiswap_router_address());
                }
                Some((factory, router))
            },
            (ProtocolType::Pancakeswap, Chain::BinanceSmartChain) => {
                let factory = Address::new(
                    [
                        0xcAu8, 0x14, 0x3C, 0xe3, 0x2F, 0xe7, 0x8f, 0x1f, 0x70, 0x19, 0xd7, 0xd5,
                        0x51, 0xa6, 0x40, 0x2f, 0xC5, 0x35, 0x0c, 0x73,
                    ],
                );
                let router = Address::new(
                    [
                        0x10u8, 0xED, 0x43, 0xC7, 0x18, 0x71, 0x4e, 0xb6, 0x3d, 0x5a, 0xA5, 0x7B,
                        0x78, 0xB5, 0x47, 0x04, 0xE2, 0x56, 0x02, 0x4E,
                    ],
                );
                proof {
                    assert(factory@ =~= pancakeswap_factory_address());
                    assert(router@ =~= pancakeswap_router_address());
                }
                Some((factory, router))
            },
            _ => None,
        }
    }
}

} // verus!
