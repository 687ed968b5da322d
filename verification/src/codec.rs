//! Fixed-width big-endian encoding of the numeric keys (epochs, value
//! identifiers) that index the tries.

use vstd::prelude::*;

use crate::error::TrieError;

verus! {

/// The eight big-endian bytes of a 64-bit integer.
pub open spec fn u64_be_bytes(x: u64) -> Seq<u8> {
    seq![
        (x >> 56) as u8,
        (x >> 48) as u8,
        (x >> 40) as u8,
        (x >> 32) as u8,
        (x >> 24) as u8,
        (x >> 16) as u8,
        (x >> 8) as u8,
        x as u8,
    ]
}

/// The 64-bit integer read back from eight big-endian bytes.
pub open spec fn u64_from_be(b: Seq<u8>) -> u64
    recommends
        b.len() == 8,
{
    (((b[0] as u64) << 56) | ((b[1] as u64) << 48) | ((b[2] as u64) << 40)
        | ((b[3] as u64) << 32) | ((b[4] as u64) << 24) | ((b[5] as u64) << 16)
        | ((b[6] as u64) << 8) | (b[7] as u64)) as u64
}

/// Decoding inverts encoding: the eight big-endian bytes of `x` read back
/// as `x`.
pub proof fn lemma_u64_be_round_trip(x: u64)
    ensures
        u64_from_be(u64_be_bytes(x)) == x,
{
    assert((((((x >> 56) as u8) as u64) << 56) | ((((x >> 48) as u8) as u64) << 48)
        | ((((x >> 40) as u8) as u64) << 40) | ((((x >> 32) as u8) as u64) << 32)
        | ((((x >> 24) as u8) as u64) << 24) | ((((x >> 16) as u8) as u64) << 16)
        | ((((x >> 8) as u8) as u64) << 8) | ((x as u8) as u64)) as u64 == x) by (bit_vector);
}

/// Encodes a numeric identifier as its fixed-width big-endian key, the only
/// form in which numeric keys enter a trie.
pub fn u64_key(k: u64) -> (r: Vec<u8>)
    ensures
        r@ == u64_be_bytes(k),
{
    let mut r: Vec<u8> = Vec::new();
    r.push(#[verifier::truncate] ((k >> 56) as u8));
    r.push(#[verifier::truncate] ((k >> 48) as u8));
    r.push(#[verifier::truncate] ((k >> 40) as u8));
    r.push(#[verifier::truncate] ((k >> 32) as u8));
    r.push(#[verifier::truncate] ((k >> 24) as u8));
    r.push(#[verifier::truncate] ((k >> 16) as u8));
    r.push(#[verifier::truncate] ((k >> 8) as u8));
    r.push(#[verifier::truncate] (k as u8));
    proof {
        assert(r@ =~= u64_be_bytes(k));
    }
    r
}

/// Reads the 64-bit big-endian integer at byte offset `off`.
pub fn read_u64_be(b: &Vec<u8>, off: usize) -> (r: u64)
    requires
        off + 8 <= b@.len(),
    ensures
        r == u64_from_be(b@.subrange(off as int, off as int + 8)),
{
    let _len = b.len();
    let r = ((b[off] as u64) << 56) | ((b[off + 1] as u64) << 48) | ((b[off + 2] as u64) << 40)
        | ((b[off + 3] as u64) << 32) | ((b[off + 4] as u64) << 24)
        | ((b[off + 5] as u64) << 16) | ((b[off + 6] as u64) << 8) | (b[off + 7] as u64);
    proof {
        let s = b@.subrange(off as int, off as int + 8);
        assert(s[0] == b@[off as int]);
        assert(s[1] == b@[off as int + 1]);
        assert(s[2] == b@[off as int + 2]);
        assert(s[3] == b@[off as int + 3]);
        assert(s[4] == b@[off as int + 4]);
        assert(s[5] == b@[off as int + 5]);
        assert(s[6] == b@[off as int + 6]);
        assert(s[7] == b@[off as int + 7]);
    }
    r
}

/// Decodes a raw trie key back to the numeric identifier it encodes;
/// rejects keys that are not exactly eight bytes.
pub fn parse_uint_key(key: &Vec<u8>) -> (r: Result<u64, TrieError>)
    ensures
        match r {
            Ok(v) => key@.len() == 8 && v == u64_from_be(key@),
            Err(_) => key@.len() != 8,
        },
{
    if key.len() == 8 {
        let v = read_u64_be(key, 0);
        proof {
            assert(key@.subrange(0, 8) =~= key@);
        }
        Ok(v)
    } else {
        Err(TrieError)
    }
}

} // verus!
