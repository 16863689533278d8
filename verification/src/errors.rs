//! Validation failures raised while building calls.
//!
//! Every failure here is detected locally, before any network interaction,
//! and is deterministic: no partial call object is ever produced.

use vstd::prelude::*;

verus! {

/// A pre-flight validation failure.
#[derive(Clone, Copy, Debug, PartialEq, Eq, Structural)]
pub enum Error {
    /// A swap path shorter than two hops, or a native-to-native no-op path.
    InvalidPath,
    /// A slippage tolerance outside the half-open interval from zero to one.
    InvalidSlippage,
    /// A minimum amount that exceeds the desired amount, or a zero liquidity
    /// quantity, in a liquidity call.
    InvalidAmount,
}

impl Error {
    /// A short human-readable description of the failure.
    pub fn describe(&self) -> (r: String)
        ensures
            match self {
                Error::InvalidPath => r@ == "invalid swap path"@,
                Error::InvalidSlippage => r@ == "slippage tolerance out of range"@,
                Error::InvalidAmount => r@ == "minimum amount exceeds desired amount"@,
            },
    {
        match self {
            Error::InvalidPath => "invalid swap path".to_string(),
            Error::InvalidSlippage => "slippage tolerance out of range".to_string(),
            Error::InvalidAmount => "minimum amount exceeds desired amount".to_string(),
        }
    }
}

} // verus!
