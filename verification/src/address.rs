//! Byte-string identifiers: 20-byte account addresses and 32-byte code
//! fingerprints, with the lexicographic order used to canonicalize token
//! pairs before deterministic address derivation.

use vstd::prelude::*;

verus! {

broadcast use vstd::array::group_array_axioms;

/// A 20-byte account or contract identifier, used both as token identity
/// and as pool identity.
#[derive(Clone, Copy, Debug, PartialEq, Eq, Hash)]
pub struct Address {
    bytes: [u8; 20],
}

impl View for Address {
    type V = Seq<u8>;

    closed spec fn view(&self) -> Seq<u8> {
        self.bytes@
    }
}

impl Address {
    /// Wraps twenty raw bytes as an address.
    pub fn new(bytes: [u8; 20]) -> (r: Address)
        ensures
            r@ == bytes@,
    {
        Address { bytes }
    }

    /// The raw bytes of the address.
    pub fn bytes(&self) -> (r: [u8; 20])
        ensures
            r@ == self@,
    {
        self.bytes
    }
}

/// A 32-byte fingerprint of a pool contract's deployed bytecode, used as an
/// input to deterministic address derivation.
#[derive(Clone, Copy, Debug, PartialEq, Eq, Hash)]
pub struct CodeHash {
    bytes: [u8; 32],
}

impl View for CodeHash {
    type V = Seq<u8>;

    closed spec fn view(&self) -> Seq<u8> {
        self.bytes@
    }
}

impl CodeHash {
    /// Wraps thirty-two raw bytes as a fingerprint.
    pub fn new(bytes: [u8; 32]) -> (r: CodeHash)
        ensures
            r@ == bytes@,
    {
        CodeHash { bytes }
    }

    /// The raw bytes of the fingerprint.
    pub fn bytes(&self) -> (r: [u8; 32])
        ensures
            r@ == self@,
    {
        self.bytes
    }
}

/// Every address is exactly 20 bytes long.
pub broadcast proof fn lemma_address_len(a: Address)
    ensures
        (#[trigger] a@).len() == 20,
{
}

/// Every fingerprint is exactly 32 bytes long.
pub broadcast proof fn lemma_code_hash_len(h: CodeHash)
    ensures
        (#[trigger] h@).len() == 32,
{
}

/// Strict lexicographic order on byte strings: `a` comes before `b` when at
/// the first position where they differ, `a` holds the smaller byte, or when
/// `a` is a proper prefix of `b`.
pub open spec fn lex_lt(a: Seq<u8>, b: Seq<u8>) -> bool
    decreases a.len(),
{
    if b.len() == 0 {
        false
    } else if a.len() == 0 {
        true
    } else if a[0] != b[0] {
        a[0] < b[0]
    } else {
        lex_lt(a.skip(1), b.skip(1))
    }
}

/// The lexicographic order is irreflexive.
pub proof fn lemma_lex_irrefl(a: Seq<u8>)
    ensures
        !lex_lt(a, a),
    decreases a.len(),
{
    if a.len() > 0 {
        lemma_lex_irrefl(a.skip(1));
    }
}

/// At most one of `lex_lt(a, b)` and `lex_lt(b, a)` holds.
pub proof fn lemma_lex_antisym(a: Seq<u8>, b: Seq<u8>)
    ensures
        !(lex_lt(a, b) && lex_lt(b, a)),
    decreases a.len(),
{
    if a.len() > 0 && b.len() > 0 && a[0] == b[0] {
        lemma_lex_antisym(a.skip(1), b.skip(1));
    }
}

/// Two byte strings of equal length that are unordered are equal.
pub proof fn lemma_lex_total(a: Seq<u8>, b: Seq<u8>)
    requires
        a.len() == b.len(),
        !lex_lt(a, b),
        !lex_lt(b, a),
    ensures
        a == b,
    decreases a.len(),
{
    if a.len() == 0 {
        assert(a =~= b);
    } else {
        lemma_lex_total(a.skip(1), b.skip(1));
        assert forall|i: int| 0 <= i < a.len() implies a[i] == b[i] by {
            if i > 0 {
                assert(a[i] == a.skip(1)[i - 1]);
                assert(b[i] == b.skip(1)[i - 1]);
            }
        }
        assert(a =~= b);
    }
}

/// A byte string is ordered before any other that shares its first `i` bytes
/// and holds a larger byte at position `i`.
pub proof fn lemma_lex_from_diff(a: Seq<u8>, b: Seq<u8>, i: int)
    requires
        0 <= i < a.len(),
        i < b.len(),
        forall|j: int| 0 <= j < i ==> a[j] == b[j],
        a[i] < b[i],
    ensures
        lex_lt(a, b),
    decreases i,
{
    if i > 0 {
        assert forall|j: int| 0 <= j < i - 1 implies a.skip(1)[j] == b.skip(1)[j] by {
            assert(a[j + 1] == b[j + 1]);
        }
        assert(a.skip(1)[i - 1] == a[i]);
        assert(b.skip(1)[i - 1] == b[i]);
        lemma_lex_from_diff(a.skip(1), b.skip(1), i - 1);
    }
}

/// Compares two addresses in lexicographic byte order.
pub fn addr_lt(a: &Address, b: &Address) -> (r: bool)
    ensures
        r == lex_lt(a@, b@),
{
    let mut i: usize = 0;
    while i < 20
        invariant
            0 <= i <= 20,
            forall|j: int| 0 <= j < i ==> a@[j] == b@[j],
        decreases 20 - i,
    {
        let x = a.bytes[i];
        let y = b.bytes[i];
        if x < y {
            proof {
                lemma_lex_from_diff(a@, b@, i as int);
            }
            return true;
        }
        if x > y {
            proof {
                lemma_lex_from_diff(b@, a@, i as int);
                lemma_lex_antisym(a@, b@);
            }
            return false;
        }
        i = i + 1;
    }
    proof {
        assert(a@ =~= b@);
        lemma_lex_irrefl(a@);
    }
    false
}

/// The two byte strings in canonical order: the lexicographically smaller
/// one first.
pub open spec fn canonical_tokens(a: Seq<u8>, b: Seq<u8>) -> (Seq<u8>, Seq<u8>) {
    if lex_lt(b, a) {
        (b, a)
    } else {
        (a, b)
    }
}

/// Canonical ordering does not depend on the order the two byte strings are
/// given in, provided they are distinct and of equal length.
pub proof fn lemma_canonical_symmetric(a: Seq<u8>, b: Seq<u8>)
    requires
        a.len() == b.len(),
        a != b,
    ensures
        canonical_tokens(a, b) == canonical_tokens(b, a),
{
    lemma_lex_antisym(a, b);
    if !lex_lt(a, b) && !lex_lt(b, a) {
        lemma_lex_total(a, b);
    }
}

/// Tests two addresses for byte-for-byte equality.
pub fn addr_eq(a: &Address, b: &Address) -> (r: bool)
    ensures
        r == (a@ == b@),
{
    let mut i: usize = 0;
    while i < 20
        invariant
            0 <= i <= 20,
            forall|j: int| 0 <= j < i ==> a@[j] == b@[j],
        decreases 20 - i,
    {
        if a.bytes[i] != b.bytes[i] {
            return false;
        }
        i = i + 1;
    }
    proof {
        assert(a@ =~= b@);
    }
    true
}

} // verus!
