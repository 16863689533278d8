//! The router: liquidity and swap call construction with bounds-checked,
//! slippage-adjusted amounts.

use vstd::prelude::*;
use crate::address::Address;
use crate::address::addr_eq;
use crate::calls::AddLiquidityCall;
use crate::calls::Amount;
use crate::calls::QuoteRequest;
use crate::calls::RemoveLiquidityCall;
use crate::calls::SwapCall;
use crate::calls::SwapSide;
use crate::errors::Error;
use crate::slippage::max_amount_in;
use crate::slippage::max_in_spec;
use crate::slippage::min_amount_out;
use crate::slippage::min_out_spec;
use crate::slippage::slippage_valid;

verus! {

/// The first validation failure a swap request runs into, if any: a path of
/// fewer than two hops is rejected first, then an out-of-range slippage
/// tolerance, then a path that both starts and ends at the native-asset
/// wrapper (a no-op swap).
pub open spec fn swap_error(path: Seq<Address>, slippage_bps: i64, wrapper: Address) -> Option<
    Error,
> {
    if path.len() < 2 {
        Some(Error::InvalidPath)
    } else if !slippage_valid(slippage_bps) {
        Some(Error::InvalidSlippage)
    } else if path[0]@ == wrapper@ && path[path.len() - 1]@ == wrapper@ {
        Some(Error::InvalidPath)
    } else {
        None
    }
}

/// Which family of on-chain swap entry points a valid path selects, from
/// whether its first or last token is the native-asset wrapper.
pub open spec fn swap_side_spec(path: Seq<Address>, wrapper: Address) -> SwapSide
    recommends
        path.len() >= 2,
{
    if path[0]@ == wrapper@ {
        SwapSide::NativeToToken
    } else if path[path.len() - 1]@ == wrapper@ {
        SwapSide::TokenToNative
    } else {
        SwapSide::TokenToToken
    }
}

/// Copies a hop sequence.
fn copy_path(path: &Vec<Address>) -> (r: Vec<Address>)
    ensures
        r@ == path@,
{
    let mut r: Vec<Address> = Vec::new();
    let mut i: usize = 0;
    while i < path.len()
        invariant
            0 <= i <= path@.len(),
            r@ == path@.take(i as int),
        decreases path@.len() - i,
    {
        r.push(path[i]);
        proof {
            assert(path@.take(i + 1) =~= path@.take(i as int).push(path@[i as int]));
        }
        i = i + 1;
    }
    proof {
        assert(path@.take(path@.len() as int) =~= path@);
    }
    r
}

/// A swap router at a fixed contract address. It is chain-agnostic by
/// design: the router and pool addresses are supplied explicitly, never
/// derived from a chain identifier.
#[derive(Clone, Copy, Debug)]
pub struct Router {
    /// The on-chain router contract's address.
    pub address: Address,
}

impl Router {
    /// Creates a router at `address`.
    pub fn new(address: Address) -> (r: Router)
        ensures
            r.address == address,
    {
        Router { address }
    }

    /// Builds (does not send) a liquidity-provision call. Fails if and only
    /// if a minimum exceeds the corresponding desired amount; otherwise the
    /// arguments are forwarded unchanged. The deadline is an opaque absolute
    /// expiry the remote contract enforces; it is not validated here.
    pub fn add_liquidity(
        &self,
        token_a: Address,
        token_b: Address,
        amount_a_desired: u128,
        amount_b_desired: u128,
        amount_a_min: u128,
        amount_b_min: u128,
        to: Address,
        deadline: u128,
    ) -> (r: Result<AddLiquidityCall, Error>)
        ensures
            match r {
                Ok(c) => amount_a_min <= amount_a_desired && amount_b_min <= amount_b_desired
                    && c.target == self.address && c.token_a == token_a && c.token_b == token_b
                    && c.amount_a_desired == amount_a_desired && c.amount_b_desired
                    == amount_b_desired && c.amount_a_min == amount_a_min && c.amount_b_min
                    == amount_b_min && c.to == to && c.deadline == deadline,
                Err(e) => (amount_a_min > amount_a_desired || amount_b_min > amount_b_desired) && e
                    == Error::InvalidAmount,
            },
    {
        if amount_a_min > amount_a_desired || amount_b_min > amount_b_desired {
            return Err(Error::InvalidAmount);
        }
        Ok(
            AddLiquidityCall {
                target: self.address,
                token_a,
                token_b,
                amount_a_desired,
                amount_b_desired,
                amount_a_min,
                amount_b_min,
                to,
                deadline,
            },
        )
    }

    /// Builds (does not send) a liquidity-withdrawal call. Fails if and only
    /// if the liquidity quantity is zero; the minimums are unsigned, so
    /// their lower bound holds trivially, and whether the caller actually
    /// holds the liquidity is left to the chain.
    pub fn remove_liquidity(
        &self,
        token_a: Address,
        token_b: Address,
        liquidity: u128,
        amount_a_min: u128,
        amount_b_min: u128,
        to: Address,
        deadline: u128,
    ) -> (r: Result<RemoveLiquidityCall, Error>)
        ensures
            match r {
                Ok(c) => liquidity > 0 && c.target == self.address && c.token_a == token_a
                    && c.token_b == token_b && c.liquidity == liquidity && c.amount_a_min
                    == amount_a_min && c.amount_b_min == amount_b_min && c.to == to && c.deadline
                    == deadline,
                Err(e) => liquidity == 0 && e == Error::InvalidAmount,
            },
    {
        if liquidity == 0 {
            return Err(Error::InvalidAmount);
        }
        Ok(
            RemoveLiquidityCall {
                target: self.address,
                token_a,
                token_b,
                liquidity,
                amount_a_min,
                amount_b_min,
                to,
                deadline,
            },
        )
    }

    /// Validates a swap request and says what to quote: the expected amounts
    /// at the other end of the path, in the direction the amount's role
    /// dictates. The quote is a read-only network query this builder never
    /// performs itself; its answer is handed back to `swap`.
    pub fn swap_quote(
        &self,
        amount: Amount,
        slippage_bps: i64,
        path: &Vec<Address>,
        native_wrapper: Address,
    ) -> (r: Result<QuoteRequest, Error>)
        ensures
            match r {
                Ok(q) => swap_error(path@, slippage_bps, native_wrapper) is None && match amount {
                    Amount::ExactIn(a) => q matches QuoteRequest::AmountsOut {
                        amount_in,
                        path: p,
                    } && amount_in == a && p@ == path@,
                    Amount::ExactOut(a) => q matches QuoteRequest::AmountsIn {
                        amount_out,
                        path: p,
                    } && amount_out == a && p@ == path@,
                },
                Err(e) => swap_error(path@, slippage_bps, native_wrapper) == Some(e),
            },
    {
        if let Err(e) = self.validate_swap(slippage_bps, path, native_wrapper) {
            return Err(e);
        }
        let p = copy_path(path);
        match amount {
            Amount::ExactIn(a) => Ok(QuoteRequest::AmountsOut { amount_in: a, path: p }),
            Amount::ExactOut(a) => Ok(QuoteRequest::AmountsIn { amount_out: a, path: p }),
        }
    }

    /// Runs the three pre-flight validations in their fixed order.
    fn validate_swap(&self, slippage_bps: i64, path: &Vec<Address>, native_wrapper: Address) -> (r:
        Result<(), Error>)
        ensures
            match r {
                Ok(()) => swap_error(path@, slippage_bps, native_wrapper) is None,
                Err(e) => swap_error(path@, slippage_bps, native_wrapper) == Some(e),
            },
    {
        if path.len() < 2 {
            return Err(Error::InvalidPath);
        }
        if slippage_bps < 0 || slippage_bps >= 10000 {
            return Err(Error::InvalidSlippage);
        }
        let first_native = addr_eq(&path[0], &native_wrapper);
        let last_native = addr_eq(&path[path.len() - 1], &native_wrapper);
        if first_native && last_native {
            return Err(Error::InvalidPath);
        }
        Ok(())
    }

    /// Builds (does not send) a multi-hop swap call, given the answer
    /// `quoted` to the quote request: the expected amount at the other end
    /// of the path. Validation failures come in a fixed order: a short path,
    /// then an out-of-range tolerance, then a native-to-native no-op path.
    /// On success the fixed quantity is forwarded unchanged and the other
    /// side carries the slippage bound, rounded in the protocol-safe
    /// direction.
    pub fn swap(
        &self,
        amount: Amount,
        slippage_bps: i64,
        path: &Vec<Address>,
        to: Address,
        deadline: u128,
        native_wrapper: Address,
        quoted: u128,
    ) -> (r: Result<SwapCall, Error>)
        requires
            amount is ExactOut ==> quoted <= u128::MAX / 2,
        ensures
            match r {
                Ok(c) => swap_error(path@, slippage_bps, native_wrapper) is None && c.target
                    == self.address && c.side == swap_side_spec(path@, native_wrapper) && c.path@
                    == path@ && c.to == to && c.deadline == deadline && match amount {
                    Amount::ExactIn(a) => c.exact_input && c.amount_in == a && c.amount_out
                        == min_out_spec(quoted as int, slippage_bps as int),
                    Amount::ExactOut(a) => !c.exact_input && c.amount_out == a && c.amount_in
                        == max_in_spec(quoted as int, slippage_bps as int),
                },
                Err(e) => swap_error(path@, slippage_bps, native_wrapper) == Some(e),
            },
    {
        if let Err(e) = self.validate_swap(slippage_bps, path, native_wrapper) {
            return Err(e);
        }
        let first_native = addr_eq(&path[0], &native_wrapper);
        let last_native = addr_eq(&path[path.len() - 1], &native_wrapper);
        let side = if first_native {
            SwapSide::NativeToToken
        } else if last_native {
            SwapSide::TokenToNative
        } else {
            SwapSide::TokenToToken
        };
        let call = match amount {
            Amount::ExactIn(a) => {
                let bound = min_amount_out(quoted, slippage_bps);
                SwapCall {
                    target: self.address,
                    side,
                    exact_input: true,
                    amount_in: a,
                    amount_out: bound,
                    path: copy_path(path),
                    to,
                    deadline,
                }
            },
            Amount::ExactOut(a) => {
                let bound = max_amount_in(quoted, slippage_bps);
                SwapCall {
                    target: self.address,
                    side,
                    exact_input: false,
                    amount_in: bound,
                    amount_out: a,
                    path: copy_path(path),
                    to,
                    deadline,
                }
            },
        };
        Ok(call)
    }
}

} // verus!
