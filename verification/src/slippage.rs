//! Slippage bounds: scaling a quoted amount by a tolerance expressed in
//! basis points, rounding in the protocol-safe direction. The minimum output
//! of an exact-input swap is rounded down; the maximum input of an
//! exact-output swap is rounded up; so neither bound is ever violated by
//! rounding.

use vstd::prelude::*;
use vstd::arithmetic::div_mod::lemma_fundamental_div_mod;
use vstd::arithmetic::div_mod::lemma_fundamental_div_mod_converse_div;

verus! {

/// One whole, in basis points: a tolerance is valid when it lies in
/// `[0, SLIPPAGE_DENOM)`, a fraction in the half-open interval from zero to
/// one.
pub const SLIPPAGE_DENOM: i64 = 10000;

/// Whether a tolerance in basis points denotes a fraction in the half-open
/// interval from zero to one.
pub open spec fn slippage_valid(bps: i64) -> bool {
    0 <= bps < SLIPPAGE_DENOM
}

/// The guaranteed minimum output for an expected output `e` under a
/// tolerance of `bps` basis points: `e * (1 - bps/10000)` rounded down.
pub open spec fn min_out_spec(e: int, bps: int) -> int {
    (e * (10000 - bps)) / 10000
}

/// The guaranteed maximum input for an expected input `e` under a tolerance
/// of `bps` basis points: `e * (1 + bps/10000)` rounded up.
pub open spec fn max_in_spec(e: int, bps: int) -> int {
    (e * (10000 + bps) + 9999) / 10000
}

/// Splitting a scaled flooring division at a multiple of the denominator:
/// scaling `e` by `k` (plus a carry `c`) and flooring equals scaling the
/// whole quotient exactly and flooring only the remainder's share.
proof fn lemma_split_scaled_div(e: int, k: int, c: int)
    requires
        0 <= e,
        0 <= k,
        0 <= c,
    ensures
        (e * k + c) / 10000 == (e / 10000) * k + ((e % 10000) * k + c) / 10000,
{
    let q = e / 10000;
    let r = e % 10000;
    lemma_fundamental_div_mod(e, 10000);
    let s = r * k + c;
    let sq = s / 10000;
    let sr = s % 10000;
    assert(0 <= r * k) by (nonlinear_arith)
        requires
            0 <= r,
            0 <= k,
    ;
    lemma_fundamental_div_mod(s, 10000);
    assert(e * k + c == (q * k + sq) * 10000 + sr) by (nonlinear_arith)
        requires
            e == 10000 * q + r,
            s == r * k + c,
            s == 10000 * sq + sr,
    ;
    lemma_fundamental_div_mod_converse_div(e * k + c, 10000, q * k + sq, sr);
}

/// Law: the minimum output is rounded down, never up: scaled back up it
/// never exceeds the exact product, and it never exceeds the expected
/// output itself.
pub proof fn lemma_min_out_round_down(e: int, bps: int)
    requires
        0 <= e,
        0 <= bps,
        bps < 10000,
    ensures
        min_out_spec(e, bps) * 10000 <= e * (10000 - bps),
        0 <= min_out_spec(e, bps) <= e,
{
    let x = e * (10000 - bps);
    assert(0 <= e * (10000 - bps) && e * (10000 - bps) <= e * 10000) by (nonlinear_arith)
        requires
            0 <= e,
            0 <= bps,
            bps < 10000,
    ;
    lemma_fundamental_div_mod(x, 10000);
    assert((x / 10000) * 10000 <= x);
    assert(x / 10000 <= e) by (nonlinear_arith)
        requires
            x <= e * 10000,
            0 <= e,
            x == 10000 * (x / 10000) + x % 10000,
            0 <= x % 10000,
            x % 10000 < 10000,
    ;
}

/// Law: the maximum input is rounded up, never down: scaled back up it
/// covers the exact product, and it is never below the expected input
/// itself.
pub proof fn lemma_max_in_round_up(e: int, bps: int)
    requires
        0 <= e,
        0 <= bps,
        bps < 10000,
    ensures
        max_in_spec(e, bps) * 10000 >= e * (10000 + bps),
        max_in_spec(e, bps) >= e,
{
    let x = e * (10000 + bps);
    let y = x + 9999;
    assert(e * (10000 + bps) >= e * 10000 && e * (10000 + bps) >= 0) by (nonlinear_arith)
        requires
            0 <= e,
            0 <= bps,
    ;
    lemma_fundamental_div_mod(y, 10000);
    assert((y / 10000) * 10000 == y - y % 10000);
    assert(y / 10000 >= e) by (nonlinear_arith)
        requires
            x >= e * 10000,
            y == x + 9999,
            y == 10000 * (y / 10000) + y % 10000,
            0 <= y % 10000,
            y % 10000 < 10000,
    ;
}

/// The guaranteed minimum output for an expected output `expected` under a
/// valid tolerance: the exact product scaled down, rounded down.
pub fn min_amount_out(expected: u128, slippage_bps: i64) -> (r: u128)
    requires
        slippage_valid(slippage_bps),
    ensures
        r == min_out_spec(expected as int, slippage_bps as int),
        r <= expected,
{
    let keep: u128 = (10000 - slippage_bps) as u128;
    let q: u128 = expected / 10000;
    let rem: u128 = expected % 10000;
    proof {
        let e = expected as int;
        let k = keep as int;
        lemma_fundamental_div_mod(e, 10000);
        assert((q as int) * k <= (q as int) * 10000) by (nonlinear_arith)
            requires
                0 <= q as int,
                0 <= k,
                k <= 10000,
        ;
        assert((rem as int) * k < 10000 * 10000) by (nonlinear_arith)
            requires
                0 <= rem as int,
                (rem as int) < 10000,
                0 <= k,
                k <= 10000,
        ;
        lemma_split_scaled_div(e, k, 0);
        lemma_min_out_round_down(e, slippage_bps as int);
    }
    q * keep + (rem * keep) / 10000
}

/// The guaranteed maximum input for an expected input `expected` under a
/// valid tolerance: the exact product scaled up, rounded up. The expected
/// input must leave headroom for the bound to be representable.
pub fn max_amount_in(expected: u128, slippage_bps: i64) -> (r: u128)
    requires
        slippage_valid(slippage_bps),
        expected <= u128::MAX / 2,
    ensures
        r == max_in_spec(expected as int, slippage_bps as int),
        r >= expected,
{
    let plus: u128 = (10000 + slippage_bps) as u128;
    let q: u128 = expected / 10000;
    let rem: u128 = expected % 10000;
    proof {
        let e = expected as int;
        let k = plus as int;
        lemma_fundamental_div_mod(e, 10000);
        assert((q as int) * k <= (q as int) * 20000) by (nonlinear_arith)
            requires
                0 <= q as int,
                0 <= k,
                k <= 20000,
        ;
        assert((rem as int) * k < 10000 * 20000) by (nonlinear_arith)
            requires
                0 <= rem as int,
                (rem as int) < 10000,
                0 <= k,
                k <= 20000,
        ;
        assert(e * k <= e * 20000) by (nonlinear_arith)
            requires
                0 <= e,
                0 <= k,
                k <= 20000,
        ;
        lemma_split_scaled_div(e, k, 9999);
        lemma_max_in_round_up(e, slippage_bps as int);
        // The result is (e * k + 9999) / 10000, which stays within twice the
        // expected amount plus one, and so within the type's range.
        lemma_fundamental_div_mod(e * k + 9999, 10000);
        assert((e * k + 9999) / 10000 <= 2 * e + 1);
    }
    q * plus + (rem * plus + 9999) / 10000
}

} // verus!
