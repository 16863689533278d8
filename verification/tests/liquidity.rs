//! Liquidity call construction: the amount validations and the forwarded
//! fields.

use amm_sdk::address::Address;
use amm_sdk::chain::ProtocolType;
use amm_sdk::errors::Error;
use amm_sdk::protocol::Protocol;

fn addr_of_byte(b: u8) -> Address {
    let mut bytes = [0u8; 20];
    bytes[19] = b;
    Address::new(bytes)
}

fn protocol() -> Protocol {
    Protocol::new(addr_of_byte(0xFA), addr_of_byte(0xF0), ProtocolType::UniswapV2)
}

#[test]
fn add_liquidity_rejects_min_above_desired() {
    let p = protocol();
    let a = addr_of_byte(0x01);
    let b = addr_of_byte(0x02);
    let to = addr_of_byte(0x03);
    // Minimum of the first token above its desired amount.
    let r = p.add_liquidity(a, b, 100, 200, 101, 0, to, 1);
    assert_eq!(r.unwrap_err(), Error::InvalidAmount);
    // Minimum of the second token above its desired amount.
    let r = p.add_liquidity(a, b, 100, 200, 0, 201, to, 1);
    assert_eq!(r.unwrap_err(), Error::InvalidAmount);
    // Both minimums above.
    let r = p.add_liquidity(a, b, 0, 0, 1, 1, to, 1);
    assert_eq!(r.unwrap_err(), Error::InvalidAmount);
}

#[test]
fn add_liquidity_builds_call_otherwise() {
    let p = protocol();
    let a = addr_of_byte(0x01);
    let b = addr_of_byte(0x02);
    let to = addr_of_byte(0x03);
    let c = p.add_liquidity(a, b, 100, 200, 100, 200, to, 99).unwrap();
    assert_eq!(c.target, addr_of_byte(0xF0));
    assert_eq!(c.token_a, a);
    assert_eq!(c.token_b, b);
    assert_eq!(c.amount_a_desired, 100);
    assert_eq!(c.amount_b_desired, 200);
    assert_eq!(c.amount_a_min, 100);
    assert_eq!(c.amount_b_min, 200);
    assert_eq!(c.to, to);
    assert_eq!(c.deadline, 99);
}

#[test]
fn add_liquidity_accepts_zero_minimums() {
    let p = protocol();
    let r = p.add_liquidity(
        addr_of_byte(0x01),
        addr_of_byte(0x02),
        1,
        1,
        0,
        0,
        addr_of_byte(0x03),
        0,
    );
    assert!(r.is_ok());
}

#[test]
fn remove_liquidity_rejects_zero_liquidity() {
    let p = protocol();
    let r = p.remove_liquidity(
        addr_of_byte(0x01),
        addr_of_byte(0x02),
        0,
        0,
        0,
        addr_of_byte(0x03),
        1,
    );
    assert_eq!(r.unwrap_err(), Error::InvalidAmount);
}

#[test]
fn remove_liquidity_builds_call_otherwise() {
    let p = protocol();
    let a = addr_of_byte(0x01);
    let b = addr_of_byte(0x02);
    let to = addr_of_byte(0x03);
    let c = p.remove_liquidity(a, b, 7, 1, 2, to, 42).unwrap();
    assert_eq!(c.target, addr_of_byte(0xF0));
    assert_eq!(c.token_a, a);
    assert_eq!(c.token_b, b);
    assert_eq!(c.liquidity, 7);
    assert_eq!(c.amount_a_min, 1);
    assert_eq!(c.amount_b_min, 2);
    assert_eq!(c.to, to);
    assert_eq!(c.deadline, 42);
}
