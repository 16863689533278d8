//! The hashing boundary: Keccak-256 and the deterministic-deployment
//! address formula, provided by an outside crate and named here so that
//! contracts can speak of their results exactly.

use vstd::prelude::*;
use crate::address::Address;
use crate::address::CodeHash;

verus! {

/// The Keccak-256 digest of a byte string. The digest is a function of the
/// input bytes alone; its value is not spelled out here, only named.
pub uninterp spec fn keccak_of(bytes: Seq<u8>) -> Seq<u8>;

/// The byte string hashed by the deterministic-deployment address formula:
/// a fixed prefix byte, the deployer address, the salt, and the fingerprint
/// of the deployed bytecode.
pub open spec fn create2_preimage(deployer: Seq<u8>, salt: Seq<u8>, code_hash: Seq<u8>) -> Seq<u8> {
    seq![0xffu8] + deployer + salt + code_hash
}

/// The deterministic-deployment address: the last 20 bytes of the digest of
/// the preimage above.
pub open spec fn create2_address_of(deployer: Seq<u8>, salt: Seq<u8>, code_hash: Seq<u8>) -> Seq<
    u8,
> {
    keccak_of(create2_preimage(deployer, salt, code_hash)).skip(12)
}

/// Relies on `ethers_core::utils::keccak256`: the Keccak-256 digest of the
/// input bytes, 32 bytes long, depending on the input bytes alone.
#[verifier::external_body]
pub(crate) fn keccak(bytes: &Vec<u8>) -> (r: Vec<u8>)
    ensures
        r@ == keccak_of(bytes@),
        r@.len() == 32,
{
    ethers_core::utils::keccak256(bytes.as_slice()).to_vec()
}

/// Relies on `ethers_core::utils::get_create2_address_from_hash`: it returns
/// the last 20 bytes of the Keccak-256 digest of the prefix byte, the
/// deployer address, the salt and the bytecode fingerprint, in that order.
#[verifier::external_body]
pub(crate) fn create2_address(deployer: &Address, salt: &Vec<u8>, code_hash: &CodeHash) -> (r:
    Address)
    ensures
        r@ == create2_address_of(deployer@, salt@, code_hash@),
        r@.len() == 20,
{
    let from = ethers_core::types::Address::from(deployer.bytes());
    let derived = ethers_core::utils::get_create2_address_from_hash(
        from,
        salt.as_slice(),
        code_hash.bytes(),
    );
    Address::new(derived.0)
}

} // verus!
