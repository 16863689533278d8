//! The factory: deterministic pool-address derivation and pool-creation
//! call construction.

use vstd::prelude::*;
use crate::address::Address;
use crate::address::CodeHash;
use crate::address::addr_lt;
use crate::address::canonical_tokens;
use crate::address::lemma_canonical_symmetric;
use crate::address::lemma_lex_total;
use crate::address::lex_lt;
use crate::calls::CreatePairCall;
use crate::chain::Chain;
use crate::chain::ProtocolType;
use crate::chain::pair_code_hash_seq;
use crate::encode::be_bytes_u32;
use crate::encode::push_be_u32;
use crate::encode::push_bytes;
use crate::encode::push_zeros;
use crate::encode::zeros;
use crate::hashing::create2_address;
use crate::hashing::create2_address_of;
use crate::hashing::keccak;
use crate::hashing::keccak_of;

verus! {

broadcast use crate::address::lemma_address_len, crate::address::lemma_code_hash_len;

/// The key of one liquidity pool: two distinct constituent tokens in
/// canonical (ascending lexicographic) order, and an optional fee-tier
/// discriminator, present only for fee-tiered protocol variants.
#[derive(Clone, Copy, Debug, PartialEq, Eq)]
pub struct PoolKey {
    /// The lexicographically smaller constituent token.
    pub token0: Address,
    /// The lexicographically larger constituent token.
    pub token1: Address,
    /// The fee tier, absent for fixed-fee variants.
    pub fee: Option<u32>,
}

impl PoolKey {
    /// The key's tokens are distinct and canonically ordered.
    pub open spec fn wf(self) -> bool {
        lex_lt(self.token0@, self.token1@)
    }

    /// Builds the key for two distinct tokens, putting them in canonical
    /// order so that either argument order yields the same key.
    pub fn new(token_a: Address, token_b: Address, fee: Option<u32>) -> (r: PoolKey)
        requires
            token_a@ != token_b@,
        ensures
            r.wf(),
            (r.token0@, r.token1@) == canonical_tokens(token_a@, token_b@),
            r.fee == fee,
    {
        if addr_lt(&token_b, &token_a) {
            PoolKey { token0: token_b, token1: token_a, fee }
        } else {
            proof {
                if !lex_lt(token_a@, token_b@) {
                    lemma_lex_total(token_a@, token_b@);
                }
            }
            PoolKey { token0: token_a, token1: token_b, fee }
        }
    }
}

/// The byte string hashed into a pool's deployment salt: the two canonical
/// tokens packed back to back for fixed-fee variants, or the word-padded
/// encoding of the tokens and the fee tier for fee-tiered variants.
pub open spec fn salt_preimage(t0: Seq<u8>, t1: Seq<u8>, fee: Option<u32>) -> Seq<u8> {
    match fee {
        None => t0 + t1,
        Some(f) => zeros(12) + t0 + zeros(12) + t1 + zeros(28) + be_bytes_u32(f),
    }
}

/// The pool address a factory at `factory` derives for `key` under the
/// bytecode fingerprint `code_hash`: the deterministic-deployment address
/// with the digest of the salt preimage as salt.
pub open spec fn pool_address_seq(factory: Seq<u8>, key: PoolKey, code_hash: Seq<u8>) -> Seq<u8> {
    create2_address_of(
        factory,
        keccak_of(salt_preimage(key.token0@, key.token1@, key.fee)),
        code_hash,
    )
}

/// The pool address for a fixed-fee pair, from the tokens as the caller
/// gives them: they are put in canonical order first.
pub open spec fn pair_address_seq(
    factory: Seq<u8>,
    a: Seq<u8>,
    b: Seq<u8>,
    code_hash: Seq<u8>,
) -> Seq<u8> {
    let t = canonical_tokens(a, b);
    create2_address_of(factory, keccak_of(salt_preimage(t.0, t.1, None)), code_hash)
}

/// Law: the derived pair address does not depend on the order of the two
/// tokens.
pub proof fn lemma_pair_address_commutes(
    factory: Seq<u8>,
    a: Seq<u8>,
    b: Seq<u8>,
    code_hash: Seq<u8>,
)
    requires
        a.len() == b.len(),
        a != b,
    ensures
        pair_address_seq(factory, a, b, code_hash) == pair_address_seq(factory, b, a, code_hash),
{
    lemma_canonical_symmetric(a, b);
}

/// Law: the derived pair address is a function of the factory address, the
/// token pair and the bytecode fingerprint alone; two derivations from the
/// same inputs agree.
pub proof fn lemma_pair_address_deterministic(
    factory: Seq<u8>,
    a: Seq<u8>,
    b: Seq<u8>,
    code_hash: Seq<u8>,
    r1: Seq<u8>,
    r2: Seq<u8>,
)
    requires
        r1 == pair_address_seq(factory, a, b, code_hash),
        r2 == pair_address_seq(factory, a, b, code_hash),
    ensures
        r1 == r2,
{
}

/// One liquidity pool, as derived offline: its contract address and its
/// canonical constituent tokens.
#[derive(Clone, Copy, Debug)]
pub struct Pair {
    /// The pool contract's derived address.
    pub address: Address,
    /// The lexicographically smaller constituent token.
    pub token0: Address,
    /// The lexicographically larger constituent token.
    pub token1: Address,
}

/// A liquidity-pair factory: derives pool addresses for a token pair given
/// a chain-specific deployment fingerprint, and builds pool-creation calls.
#[derive(Clone, Copy, Debug)]
pub struct Factory {
    /// The on-chain factory contract's address.
    pub address: Address,
    /// The protocol variant this factory deploys.
    pub protocol: ProtocolType,
    /// The network the factory is configured for; absent means
    /// "unconfigured": derivation then falls back to the variant's generic
    /// fingerprint.
    pub chain: Option<Chain>,
}

/// The chain a lookup should use: the one given with the request when
/// present, else the configured one.
pub open spec fn effective_chain(given: Option<Chain>, configured: Option<Chain>) -> Option<
    Chain,
> {
    if given is Some {
        given
    } else {
        configured
    }
}

impl Factory {
    /// Creates a factory at `address` for `protocol`, with no chain
    /// configured yet.
    pub fn new(address: Address, protocol: ProtocolType) -> (r: Factory)
        ensures
            r.address == address,
            r.protocol == protocol,
            r.chain is None,
    {
        Factory { address, protocol, chain: None }
    }

    /// The configured chain, if any.
    pub fn chain(&self) -> (r: Option<Chain>)
        ensures
            r == self.chain,
    {
        self.chain
    }

    /// Configures the chain. Pool handles derived earlier are not re-derived:
    /// they remain snapshots of the previous configuration.
    pub fn set_chain(&mut self, chain: Chain)
        ensures
            final(self).chain == Some(chain),
            final(self).address == old(self).address,
            final(self).protocol == old(self).protocol,
    {
        self.chain = Some(chain);
    }

    /// The bytecode fingerprint for the given chain, or for the configured
    /// chain when none is given. An unknown or absent chain yields the
    /// variant's generic fallback fingerprint, never an error; an address
    /// derived with the fallback need not resolve to a real deployment.
    pub fn pair_code_hash(&self, chain: Option<Chain>) -> (r: CodeHash)
        ensures
            r@ == pair_code_hash_seq(self.protocol, effective_chain(chain, self.chain)),
    {
        match chain {
            Some(c) => self.protocol.pair_code_hash(Some(c)),
            None => self.protocol.pair_code_hash(self.chain),
        }
    }

    /// Builds (does not send) the pool-creation call for two distinct
    /// tokens. Equal tokens must be rejected by the caller: no implicit
    /// deduplication happens here.
    pub fn create_pair(&self, token_a: Address, token_b: Address) -> (r: CreatePairCall)
        requires
            token_a@ != token_b@,
        ensures
            r.target == self.address,
            r.token_a == token_a,
            r.token_b == token_b,
    {
        CreatePairCall { target: self.address, token_a, token_b }
    }

    /// Derives the pool address for `key` offline: no network access. The
    /// result is determined by the factory address, the key and the
    /// fingerprint of the configured chain.
    pub fn pool_address(&self, key: &PoolKey) -> (r: Address)
        ensures
            r@ == pool_address_seq(
                self.address@,
                *key,
                pair_code_hash_seq(self.protocol, self.chain),
            ),
    {
        let preimage = build_salt_preimage(key);
        let salt = keccak(&preimage);
        let code_hash = self.pair_code_hash(None);
        create2_address(&self.address, &salt, &code_hash)
    }

    /// Derives the fixed-fee pool for two distinct tokens offline: the
    /// tokens are put in canonical order, so either argument order yields
    /// the identical pool.
    pub fn pair_for(&self, token_a: Address, token_b: Address) -> (r: Pair)
        requires
            token_a@ != token_b@,
        ensures
            r.address@ == pair_address_seq(
                self.address@,
                token_a@,
                token_b@,
                pair_code_hash_seq(self.protocol, self.chain),
            ),
            (r.token0@, r.token1@) == canonical_tokens(token_a@, token_b@),
    {
        let key = PoolKey::new(token_a, token_b, None);
        let address = self.pool_address(&key);
        Pair { address, token0: key.token0, token1: key.token1 }
    }
}

/// Builds the salt preimage of `key` as a byte buffer.
pub fn build_salt_preimage(key: &PoolKey) -> (r: Vec<u8>)
    ensures
        r@ == salt_preimage(key.token0@, key.token1@, key.fee),
{
    let mut v: Vec<u8> = Vec::new();
    match key.fee {
        None => {
            let a0 = key.token0.bytes();
            push_bytes(&mut v, a0.as_slice());
            let a1 = key.token1.bytes();
            push_bytes(&mut v, a1.as_slice());
            proof {
                assert(v@ =~= salt_preimage(key.token0@, key.token1@, key.fee));
            }
        },
        Some(f) => {
            push_zeros(&mut v, 12);
            let a0 = key.token0.bytes();
            push_bytes(&mut v, a0.as_slice());
            push_zeros(&mut v, 12);
            let a1 = key.token1.bytes();
            push_bytes(&mut v, a1.as_slice());
            push_zeros(&mut v, 28);
            push_be_u32(&mut v, f);
            proof {
                assert(v@ =~= salt_preimage(key.token0@, key.token1@, key.fee));
            }
        },
    }
    v
}

} // verus!
