//! The streaming hash adapter: accumulates written bytes and, on finalize,
//! delegates the digest to the chain's canonical hash function (never a
//! language-default hash), so that every node derives identical hashed keys.

use vstd::prelude::*;

use sha2::{Digest, Sha256};

verus! {

/// The canonical 32-byte chain digest of a byte sequence. The digest is a
/// function of the bytes alone: the same bytes give the same digest on
/// every node, which consensus requires.
pub uninterp spec fn digest_of(data: Seq<u8>) -> Seq<u8>;

/// Computes the chain's canonical digest of `data`.
/// Relies on `sha2::Sha256::digest`: SHA2-256, the host chain's approved
/// trie hash function, whose output depends on the input bytes alone and
/// is always 32 bytes.
#[verifier::external_body]
fn sha2_digest(data: &Vec<u8>) -> (r: [u8; 32])
    ensures
        r@ == digest_of(data@),
{
    Sha256::digest(data.as_slice()).into()
}

/// A streaming hasher over the canonical chain digest. Bytes written since
/// the last finalize are accumulated; finalize digests them and clears the
/// accumulator, so one adapter instance can serve many keys without
/// leaking bytes between them.
pub struct Sha2HasherWrapper {
    data: Vec<u8>,
}

impl Sha2HasherWrapper {
    /// The bytes accumulated since the last finalize.
    pub closed spec fn pending(self) -> Seq<u8> {
        self.data@
    }

    /// Creates an adapter with an empty accumulator.
    pub fn new() -> (r: Sha2HasherWrapper)
        ensures
            r.pending() == Seq::<u8>::empty(),
    {
        Sha2HasherWrapper { data: Vec::new() }
    }

    /// Appends bytes to the accumulator.
    pub fn write(&mut self, bytes: &[u8])
        ensures
            final(self).pending() == old(self).pending() + bytes@,
    {
        let mut i: usize = 0;
        while i < bytes.len()
            invariant
                i <= bytes@.len(),
                self.data@ == old(self).data@ + bytes@.take(i as int),
            decreases bytes@.len() - i,
        {
            self.data.push(bytes[i]);
            proof {
                assert(old(self).data@ + bytes@.take(i as int + 1) =~= old(self).data@
                    + bytes@.take(i as int) + seq![bytes@[i as int]]);
            }
            i += 1;
        }
        proof {
            assert(bytes@.take(bytes@.len() as int) =~= bytes@);
        }
    }

    /// The 64-bit hash slot of the streaming interface; unused by the trie,
    /// which consumes full digests only.
    pub fn finish(&self) -> (r: u64)
        ensures
            r == 0,
    {
        0
    }

    /// Digests all accumulated bytes with the canonical chain hash, clears
    /// the accumulator, and returns the fixed-length digest. Failure of the
    /// host digest would be fatal and is not retried.
    pub fn finalize(&mut self) -> (r: [u8; 32])
        ensures
            r@ == digest_of(old(self).pending()),
            final(self).pending() == Seq::<u8>::empty(),
    {
        let rval = sha2_digest(&self.data);
        self.data = Vec::new();
        rval
    }

    /// Hashes one key: appends its bytes and finalizes, returning the
    /// digest of everything accumulated, and leaves the adapter clean for
    /// the next key.
    pub fn rt_hash(&mut self, key: &[u8]) -> (r: [u8; 32])
        ensures
            r@ == digest_of(old(self).pending() + key@),
            final(self).pending() == Seq::<u8>::empty(),
    {
        self.write(key);
        self.finalize()
    }
}

} // verus!
