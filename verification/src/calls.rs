//! Unsent call descriptions. Each value here names one on-chain entry point
//! together with fully validated, slippage-adjusted arguments; the caller
//! encodes, signs and broadcasts it, or discards it.

use vstd::prelude::*;
use crate::address::Address;

verus! {

/// A token quantity tagged with its role in a swap: either the input
/// quantity is fixed and the output is bounded from below, or the output
/// quantity is fixed and the input is bounded from above.
#[derive(Clone, Copy, Debug, PartialEq, Eq, Structural)]
pub enum Amount {
    /// The caller fixes the input quantity and wants a guaranteed minimum
    /// output.
    ExactIn(u128),
    /// The caller fixes the output quantity and wants a guaranteed maximum
    /// input.
    ExactOut(u128),
}

/// Which ends of a swap path touch the native-asset wrapper, and therefore
/// which family of on-chain swap entry points applies.
#[derive(Clone, Copy, Debug, PartialEq, Eq, Structural)]
pub enum SwapSide {
    /// Neither end of the path is the native-asset wrapper.
    TokenToToken,
    /// The path starts at the native-asset wrapper: the caller attaches
    /// native value and the first hop wraps it.
    NativeToToken,
    /// The path ends at the native-asset wrapper: the last hop unwraps to
    /// native value before the transfer.
    TokenToNative,
}

/// An unsent pool-creation call against a factory contract.
#[derive(Clone, Copy, Debug)]
pub struct CreatePairCall {
    /// The factory contract to call.
    pub target: Address,
    /// The first constituent token, as given by the caller.
    pub token_a: Address,
    /// The second constituent token, as given by the caller.
    pub token_b: Address,
}

/// An unsent liquidity-provision call against a router contract.
#[derive(Clone, Copy, Debug)]
pub struct AddLiquidityCall {
    /// The router contract to call.
    pub target: Address,
    /// The first constituent token.
    pub token_a: Address,
    /// The second constituent token.
    pub token_b: Address,
    /// The quantity of the first token the caller would like to deposit.
    pub amount_a_desired: u128,
    /// The quantity of the second token the caller would like to deposit.
    pub amount_b_desired: u128,
    /// The least quantity of the first token the caller will accept.
    pub amount_a_min: u128,
    /// The least quantity of the second token the caller will accept.
    pub amount_b_min: u128,
    /// The recipient of the liquidity tokens.
    pub to: Address,
    /// The absolute expiry the remote contract enforces; not validated here.
    pub deadline: u128,
}

/// An unsent liquidity-withdrawal call against a router contract.
#[derive(Clone, Copy, Debug)]
pub struct RemoveLiquidityCall {
    /// The router contract to call.
    pub target: Address,
    /// The first constituent token.
    pub token_a: Address,
    /// The second constituent token.
    pub token_b: Address,
    /// The quantity of liquidity tokens to burn.
    pub liquidity: u128,
    /// The least quantity of the first token the caller will accept.
    pub amount_a_min: u128,
    /// The least quantity of the second token the caller will accept.
    pub amount_b_min: u128,
    /// The recipient of the withdrawn tokens.
    pub to: Address,
    /// The absolute expiry the remote contract enforces; not validated here.
    pub deadline: u128,
}

/// An unsent multi-hop swap call against a router contract. The pair of
/// `side` and `exact_input` picks one of the six concrete on-chain entry
/// points; `amount_in` and `amount_out` carry the fixed quantity on one side
/// and the slippage bound on the other.
#[derive(Debug)]
pub struct SwapCall {
    /// The router contract to call.
    pub target: Address,
    /// Which ends of the path touch the native-asset wrapper.
    pub side: SwapSide,
    /// Whether the input quantity is the fixed one.
    pub exact_input: bool,
    /// The input quantity: exact when `exact_input`, else the greatest
    /// acceptable input.
    pub amount_in: u128,
    /// The output quantity: the least acceptable output when `exact_input`,
    /// else exact.
    pub amount_out: u128,
    /// The hop sequence, at least two tokens long.
    pub path: Vec<Address>,
    /// The recipient of the swap output.
    pub to: Address,
    /// The absolute expiry the remote contract enforces; not validated here.
    pub deadline: u128,
}

/// The read-only quote query a swap needs before its slippage bound can be
/// computed: the expected amounts along the path, in the direction the
/// amount's role dictates.
#[derive(Debug)]
pub enum QuoteRequest {
    /// Ask for the expected output amounts of a fixed input along the path.
    AmountsOut {
        /// The fixed input quantity.
        amount_in: u128,
        /// The hop sequence.
        path: Vec<Address>,
    },
    /// Ask for the expected input amounts toward a fixed output along the
    /// path.
    AmountsIn {
        /// The fixed output quantity.
        amount_out: u128,
        /// The hop sequence.
        path: Vec<Address>,
    },
}

} // verus!
