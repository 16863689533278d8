//! Swap call construction: path and tolerance validation, entry-point
//! selection, and the protocol-safe rounding of the slippage bounds. A
//! tolerance is given in basis points: one hundredth of one percent, so
//! one whole is ten thousand.

use amm_sdk::address::Address;
use amm_sdk::calls::Amount;
use amm_sdk::calls::QuoteRequest;
use amm_sdk::calls::SwapSide;
use amm_sdk::chain::ProtocolType;
use amm_sdk::errors::Error;
use amm_sdk::protocol::Protocol;
use amm_sdk::slippage::max_amount_in;
use amm_sdk::slippage::min_amount_out;

fn addr_of_byte(b: u8) -> Address {
    let mut bytes = [0u8; 20];
    bytes[19] = b;
    Address::new(bytes)
}

fn protocol() -> Protocol {
    Protocol::new(addr_of_byte(0xFA), addr_of_byte(0xF0), ProtocolType::UniswapV2)
}

fn weth() -> Address {
    addr_of_byte(0xEE)
}

fn two_hop_path() -> Vec<Address> {
    vec![addr_of_byte(0x01), addr_of_byte(0x02)]
}

#[test]
fn swap_rejects_empty_path() {
    let p = protocol();
    let path: Vec<Address> = vec![];
    let r = p.swap(Amount::ExactIn(1), 0, &path, addr_of_byte(0x03), 1, weth(), 1000);
    assert_eq!(r.unwrap_err(), Error::InvalidPath);
}

#[test]
fn swap_rejects_single_hop_path() {
    let p = protocol();
    let path = vec![addr_of_byte(0x01)];
    let r = p.swap(Amount::ExactIn(1), 0, &path, addr_of_byte(0x03), 1, weth(), 1000);
    assert_eq!(r.unwrap_err(), Error::InvalidPath);
}

#[test]
fn swap_rejects_native_to_native() {
    let p = protocol();
    let path = vec![weth(), weth()];
    let r = p.swap(Amount::ExactIn(1), 0, &path, addr_of_byte(0x03), 1, weth(), 1000);
    assert_eq!(r.unwrap_err(), Error::InvalidPath);
}

#[test]
fn swap_rejects_out_of_range_tolerance() {
    let p = protocol();
    let path = two_hop_path();
    let to = addr_of_byte(0x03);
    // A hundredth below zero.
    let r = p.swap(Amount::ExactIn(1), -100, &path, to, 1, weth(), 1000);
    assert_eq!(r.unwrap_err(), Error::InvalidSlippage);
    // Exactly one.
    let r = p.swap(Amount::ExactIn(1), 10000, &path, to, 1, weth(), 1000);
    assert_eq!(r.unwrap_err(), Error::InvalidSlippage);
    // One and a half.
    let r = p.swap(Amount::ExactIn(1), 15000, &path, to, 1, weth(), 1000);
    assert_eq!(r.unwrap_err(), Error::InvalidSlippage);
}

#[test]
fn swap_accepts_boundary_tolerances() {
    let p = protocol();
    let path = two_hop_path();
    let to = addr_of_byte(0x03);
    assert!(p.swap(Amount::ExactIn(1), 0, &path, to, 1, weth(), 1000).is_ok());
    assert!(p.swap(Amount::ExactIn(1), 9990, &path, to, 1, weth(), 1000).is_ok());
}

#[test]
fn swap_path_precedence_over_tolerance() {
    // A too-short path is reported before an out-of-range tolerance.
    let p = protocol();
    let path: Vec<Address> = vec![];
    let r = p.swap(Amount::ExactIn(1), 15000, &path, addr_of_byte(0x03), 1, weth(), 1000);
    assert_eq!(r.unwrap_err(), Error::InvalidPath);
}

#[test]
fn exact_input_bound_rounds_down() {
    // One percent of tolerance on an expected output of 1000: the minimum
    // output is exactly 990, never above.
    let p = protocol();
    let c = p
        .swap(
            Amount::ExactIn(500),
            100,
            &two_hop_path(),
            addr_of_byte(0x03),
            1,
            weth(),
            1000,
        )
        .unwrap();
    assert!(c.exact_input);
    assert_eq!(c.amount_in, 500);
    assert_eq!(c.amount_out, 990);
}

#[test]
fn exact_output_bound_rounds_up() {
    // One percent of tolerance on an expected input of 1000: the maximum
    // input is exactly 1010, never below.
    let p = protocol();
    let c = p
        .swap(
            Amount::ExactOut(500),
            100,
            &two_hop_path(),
            addr_of_byte(0x03),
            1,
            weth(),
            1000,
        )
        .unwrap();
    assert!(!c.exact_input);
    assert_eq!(c.amount_out, 500);
    assert_eq!(c.amount_in, 1010);
}

#[test]
fn rounding_bias_on_boundary_fractions() {
    // 999 * 0.99 = 989.01 rounds down to 989; 999 * 1.01 = 1008.99 rounds
    // up to 1009; 1 at full tolerance shrinks to 0 but never below.
    assert_eq!(min_amount_out(999, 100), 989);
    assert_eq!(max_amount_in(999, 100), 1009);
    assert_eq!(min_amount_out(1, 9999), 0);
    assert_eq!(max_amount_in(1, 9999), 2);
    assert_eq!(min_amount_out(10000, 1), 9999);
    assert_eq!(max_amount_in(10000, 1), 10001);
}

#[test]
fn slippage_bounds_at_extreme_amounts() {
    // Zero tolerance is the identity, even at the top of the range.
    assert_eq!(min_amount_out(u128::MAX, 0), u128::MAX);
    // Near-total tolerance keeps one ten-thousandth, rounded down.
    assert_eq!(min_amount_out(u128::MAX, 9999), u128::MAX / 10000);
    // The largest admissible expected input roughly doubles without
    // overflowing.
    let e = u128::MAX / 2;
    let r = max_amount_in(e, 9999);
    assert!(r >= e);
    // Zero amounts stay zero: there is nothing to round up from.
    assert_eq!(min_amount_out(0, 5000), 0);
    assert_eq!(max_amount_in(0, 5000), 0);
}

#[test]
fn swap_selects_entry_point_family() {
    let p = protocol();
    let to = addr_of_byte(0x03);
    let token_token = two_hop_path();
    let c = p.swap(Amount::ExactIn(1), 0, &token_token, to, 1, weth(), 1000).unwrap();
    assert_eq!(c.side, SwapSide::TokenToToken);

    let native_first = vec![weth(), addr_of_byte(0x02)];
    let c = p.swap(Amount::ExactIn(1), 0, &native_first, to, 1, weth(), 1000).unwrap();
    assert_eq!(c.side, SwapSide::NativeToToken);

    let native_last = vec![addr_of_byte(0x01), weth()];
    let c = p.swap(Amount::ExactIn(1), 0, &native_last, to, 1, weth(), 1000).unwrap();
    assert_eq!(c.side, SwapSide::TokenToNative);

    // A longer path passing through the wrapper in the middle is ordinary.
    let through = vec![addr_of_byte(0x01), weth(), addr_of_byte(0x02)];
    let c = p.swap(Amount::ExactIn(1), 0, &through, to, 1, weth(), 1000).unwrap();
    assert_eq!(c.side, SwapSide::TokenToToken);
}

#[test]
fn swap_forwards_path_to_and_deadline() {
    let p = protocol();
    let path = two_hop_path();
    let to = addr_of_byte(0x03);
    let c = p.swap(Amount::ExactIn(7), 0, &path, to, 1234, weth(), 1000).unwrap();
    assert_eq!(c.target, addr_of_byte(0xF0));
    assert_eq!(c.path, path);
    assert_eq!(c.to, to);
    assert_eq!(c.deadline, 1234);
}

#[test]
fn swap_quote_direction_follows_amount_role() {
    let p = protocol();
    let path = two_hop_path();
    match p.swap_quote(Amount::ExactIn(5), 0, &path, weth()).unwrap() {
        QuoteRequest::AmountsOut { amount_in, path: qp } => {
            assert_eq!(amount_in, 5);
            assert_eq!(qp, path);
        },
        _ => panic!("expected a forward quote"),
    }
    match p.swap_quote(Amount::ExactOut(6), 0, &path, weth()).unwrap() {
        QuoteRequest::AmountsIn { amount_out, path: qp } => {
            assert_eq!(amount_out, 6);
            assert_eq!(qp, path);
        },
        _ => panic!("expected a backward quote"),
    }
}

#[test]
fn swap_quote_validates_like_swap() {
    let p = protocol();
    let empty: Vec<Address> = vec![];
    assert_eq!(
        p.swap_quote(Amount::ExactIn(1), 0, &empty, weth()).unwrap_err(),
        Error::InvalidPath
    );
    let path = two_hop_path();
    assert_eq!(
        p.swap_quote(Amount::ExactIn(1), 10000, &path, weth()).unwrap_err(),
        Error::InvalidSlippage
    );
}
