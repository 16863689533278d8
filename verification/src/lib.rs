//! A typed, verified client-side builder for automated-market-maker
//! exchange contracts.
//!
//! The crate derives liquidity-pool addresses deterministically, constructs
//! liquidity-provision calls, and constructs token-swap calls with slippage
//! protection. It builds call descriptions only: signing, broadcasting and
//! the read-only quote query belong to the surrounding chain client.

pub mod address;
pub mod calls;
pub mod chain;
pub mod encode;
pub mod errors;
pub mod factory;
pub mod hashing;
pub mod protocol;
pub mod router;
pub mod slippage;

pub use address::Address;
pub use address::CodeHash;
pub use calls::Amount;
pub use chain::Chain;
pub use chain::ProtocolType;
pub use errors::Error;
pub use factory::Factory;
pub use factory::Pair;
pub use factory::PoolKey;
pub use protocol::Protocol;
pub use router::Router;
