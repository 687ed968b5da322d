//! The 256-bit machine word of the interpreter, kept as four 64-bit limbs.

use vstd::prelude::*;

use crate::codec::{u64_be_bytes, u64_from_be, lemma_u64_be_round_trip, u64_key, read_u64_be};

verus! {

/// A 256-bit word: stack operand, storage slot key and storage value.
/// `hi` holds the most significant 64 bits, `lo` the least significant.
#[derive(Clone, Copy, PartialEq, Eq, Structural, Debug)]
pub struct U256 {
    pub hi: u64,
    pub mid_hi: u64,
    pub mid_lo: u64,
    pub lo: u64,
}

/// The 32 big-endian bytes of a word, the form in which slot keys and
/// storage values enter the trie.
pub open spec fn word_be_bytes(w: U256) -> Seq<u8> {
    u64_be_bytes(w.hi) + u64_be_bytes(w.mid_hi) + u64_be_bytes(w.mid_lo) + u64_be_bytes(w.lo)
}

/// The word read back from 32 big-endian bytes.
pub open spec fn word_from_be(b: Seq<u8>) -> U256
    recommends
        b.len() == 32,
{
    U256 {
        hi: u64_from_be(b.subrange(0, 8)),
        mid_hi: u64_from_be(b.subrange(8, 16)),
        mid_lo: u64_from_be(b.subrange(16, 24)),
        lo: u64_from_be(b.subrange(24, 32)),
    }
}

/// Decoding inverts encoding: the 32 big-endian bytes of `w` read back
/// as `w`.
pub proof fn lemma_word_be_round_trip(w: U256)
    ensures
        word_from_be(word_be_bytes(w)) == w,
{
    let b = word_be_bytes(w);
    assert(b.subrange(0, 8) =~= u64_be_bytes(w.hi));
    assert(b.subrange(8, 16) =~= u64_be_bytes(w.mid_hi));
    assert(b.subrange(16, 24) =~= u64_be_bytes(w.mid_lo));
    assert(b.subrange(24, 32) =~= u64_be_bytes(w.lo));
    lemma_u64_be_round_trip(w.hi);
    lemma_u64_be_round_trip(w.mid_hi);
    lemma_u64_be_round_trip(w.mid_lo);
    lemma_u64_be_round_trip(w.lo);
}

/// The big-endian encoding is injective on words.
pub proof fn lemma_word_be_injective(a: U256, b: U256)
    requires
        word_be_bytes(a) == word_be_bytes(b),
    ensures
        a == b,
{
    lemma_word_be_round_trip(a);
    lemma_word_be_round_trip(b);
}

impl U256 {
    /// The word of value zero.
    pub fn zero() -> (r: U256)
        ensures
            r == U256::zero_spec(),
    {
        U256 { hi: 0, mid_hi: 0, mid_lo: 0, lo: 0 }
    }

    /// The zero word.
    pub open spec fn zero_spec() -> U256 {
        U256 { hi: 0, mid_hi: 0, mid_lo: 0, lo: 0 }
    }

    /// Whether the word is numerically zero.
    pub open spec fn is_zero_spec(self) -> bool {
        self == U256::zero_spec()
    }

    /// Tests whether the word is numerically zero.
    pub fn is_zero(&self) -> (r: bool)
        ensures
            r == self.is_zero_spec(),
    {
        self.hi == 0 && self.mid_hi == 0 && self.mid_lo == 0 && self.lo == 0
    }

    /// The word holding a 64-bit value.
    pub open spec fn from_u64_spec(v: u64) -> U256 {
        U256 { hi: 0, mid_hi: 0, mid_lo: 0, lo: v }
    }

    /// Widens a 64-bit value to a word.
    pub fn from_u64(v: u64) -> (r: U256)
        ensures
            r == U256::from_u64_spec(v),
    {
        U256 { hi: 0, mid_hi: 0, mid_lo: 0, lo: v }
    }

    /// The word holding a 128-bit value.
    pub open spec fn from_u128_spec(v: u128) -> U256 {
        U256 { hi: 0, mid_hi: 0, mid_lo: (v >> 64) as u64, lo: v as u64 }
    }

    /// Widens a 128-bit value (a token amount in the chain's smallest unit)
    /// to a word.
    pub fn from_u128(v: u128) -> (r: U256)
        ensures
            r == U256::from_u128_spec(v),
    {
        U256 {
            hi: 0,
            mid_hi: 0,
            mid_lo: #[verifier::truncate] ((v >> 64) as u64),
            lo: #[verifier::truncate] (v as u64),
        }
    }

    /// Writes the word as its 32 big-endian bytes.
    pub fn to_be_bytes(&self) -> (r: Vec<u8>)
        ensures
            r@ == word_be_bytes(*self),
    {
        let mut r = u64_key(self.hi);
        let mut b1 = u64_key(self.mid_hi);
        let mut b2 = u64_key(self.mid_lo);
        let mut b3 = u64_key(self.lo);
        r.append(&mut b1);
        r.append(&mut b2);
        r.append(&mut b3);
        r
    }

    /// Reads a word from 32 big-endian bytes.
    pub fn from_be_bytes(b: &Vec<u8>) -> (r: U256)
        requires
            b@.len() == 32,
        ensures
            r == word_from_be(b@),
    {
        U256 {
            hi: read_u64_be(b, 0),
            mid_hi: read_u64_be(b, 8),
            mid_lo: read_u64_be(b, 16),
            lo: read_u64_be(b, 24),
        }
    }
}

} // verus!
