//! The persistent authenticated map: a hash array mapped trie addressed by a
//! content id, stored in a content-addressed block store.
//!
//! The trie itself comes from the `fvm_ipld_hamt` crate and is kept behind a
//! small set of trusted operations. Their contracts speak of named
//! quantities that the crate's content addressing justifies: the logical
//! contents of a trie value, the root id that flushing a given contents
//! produces, the contents that a root id identifies, and the traversal
//! order of a given contents. Every node computing the same set of
//! mutations converges to the same root id, and a root id determines the
//! tree below it, so each of these is a function of its argument.
//!
//! Keys are located by their SHA2-256 digests, the same canonical chain
//! digest the streaming hash adapter exposes, so independently operated
//! nodes navigate identical tries.
//!
//! The store backing every trie here is the in-memory block store of
//! `fvm_ipld_blockstore`. It never discards a block and never fails, so the
//! lookup, update and flush operations below are total; only loading an
//! unknown or malformed root can fail. Two further assumptions bound what
//! these contracts say. Every trie is created and loaded at the one node
//! width `HAMT_BIT_WIDTH` — the operations require it, because at another
//! width the underlying walk fails outright or reads the wrong bit
//! offsets. And a root id handed to `from_root` is taken to be one that a
//! flush produced: the id of an interior node also names a well-formed
//! block, but loading it yields a tree read from the wrong depth. Root ids
//! can only be constructed by `flush` here, which keeps verified callers
//! inside both assumptions.

use vstd::prelude::*;

use std::rc::Rc;

use cid::Cid;
use fvm_ipld_blockstore::MemoryBlockstore;
use fvm_ipld_hamt::{BytesKey, Hamt};

use crate::error::TrieError;

verus! {

/// Node width parameter of every trie in this crate: each node consumes
/// five bits of the hashed key.
pub const HAMT_BIT_WIDTH: u32 = 5;

#[verifier::external_type_specification]
#[verifier::external_body]
pub struct ExMemoryBlockstore(MemoryBlockstore);

/// Relies on `MemoryBlockstore::new`, which allocates an empty in-memory
/// store that never discards a block.
pub assume_specification[ MemoryBlockstore::new ]() -> MemoryBlockstore;

/// A handle to a content-addressed block store. Handles are cheap to copy
/// and all copies address the same store; blocks are only ever added.
pub struct BlockStore {
    inner: Rc<MemoryBlockstore>,
}

impl BlockStore {
    /// Creates a fresh, empty block store.
    pub fn new() -> BlockStore {
        BlockStore { inner: Rc::new(MemoryBlockstore::new()) }
    }
}

/// A durable root identifier: the bytes of the content id under which a
/// flushed trie is addressed. Only `flush` creates one, so a root id in
/// verified code always names a tree that was actually flushed.
#[derive(Clone, PartialEq, Eq, Debug)]
pub struct RootId {
    bytes: Vec<u8>,
}

impl View for RootId {
    type V = Seq<u8>;

    closed spec fn view(&self) -> Seq<u8> {
        self.bytes@
    }
}

impl RootId {
    /// The raw content id bytes, for callers that persist the root.
    pub fn as_bytes(&self) -> (r: &Vec<u8>)
        ensures
            r@ == self@,
    {
        &self.bytes
    }

    /// Surrenders the raw content id bytes.
    pub(crate) fn into_bytes(self) -> (r: Vec<u8>)
        ensures
            r@ == self@,
    {
        self.bytes
    }

    /// Rebuilds a root id from bytes read back out of an outer trie.
    pub(crate) fn from_bytes(bytes: Vec<u8>) -> (r: RootId)
        ensures
            r@ == bytes@,
    {
        RootId { bytes }
    }
}

/// A key-value trie whose mutations are staged in memory and only become a
/// new durable root when `flush` is called.
#[verifier::external_body]
pub struct TrieMap {
    inner: Hamt<Rc<MemoryBlockstore>, Vec<u8>>,
}

/// The logical contents of a trie value: raw key bytes to raw value bytes.
pub uninterp spec fn trie_contents(m: TrieMap) -> Map<Seq<u8>, Seq<u8>>;

/// The contents of a trie with no entries.
pub open spec fn empty_contents() -> Map<Seq<u8>, Seq<u8>> {
    Map::empty()
}

/// The views of a vector of byte vectors.
pub open spec fn views_of(s: Seq<Vec<u8>>) -> Seq<Seq<u8>> {
    s.map_values(|v: Vec<u8>| v@)
}

/// The node width a trie value was created or loaded with. The width
/// shapes the tree, so the named quantities below all depend on it.
pub uninterp spec fn trie_width(m: TrieMap) -> u32;

/// The root id bytes that flushing a trie of the given node width and
/// contents produces. Content addressing makes this a function of the two
/// alone: nodes that compute identical contents reach byte-identical
/// roots.
pub uninterp spec fn root_of(width: u32, c: Map<Seq<u8>, Seq<u8>>) -> Seq<u8>;

/// The contents that a root id identifies when read at the given node
/// width. A root id is a cryptographic hash of the tree below it, so it
/// determines those contents.
pub uninterp spec fn contents_of_root(width: u32, root: Seq<u8>) -> Map<Seq<u8>, Seq<u8>>;

/// The sequence of keys in trie traversal order: the fixed order, derived
/// from the hashed keys, in which a traversal of a trie of the given node
/// width and contents visits its entries.
pub uninterp spec fn trie_key_order(width: u32, c: Map<Seq<u8>, Seq<u8>>) -> Seq<Seq<u8>>;

impl TrieMap {
    /// Creates an empty trie on the given store.
    /// Relies on `Hamt::new_with_bit_width`: a freshly constructed trie
    /// holds no entries.
    #[verifier::external_body]
    pub fn new(store: &BlockStore, bit_width: u32) -> (r: TrieMap)
        requires
            bit_width == HAMT_BIT_WIDTH,
        ensures
            trie_contents(r) == empty_contents(),
            trie_width(r) == bit_width,
    {
        TrieMap { inner: Hamt::new_with_bit_width(Rc::clone(&store.inner), bit_width) }
    }

    /// Loads the trie that a root id identifies; fails if the root is not a
    /// content id or does not name a tree in the store. Whether the store
    /// holds the root's tree is mutable shared state that no argument
    /// carries, so success is never promised; the contract says only what
    /// holds of every outcome.
    /// Relies on `Hamt::load_with_bit_width`: on success the loaded tree is
    /// the one the content id was computed from, a flush product read back
    /// at the width it was flushed with.
    #[verifier::external_body]
    pub fn from_root(store: &BlockStore, root: &RootId, bit_width: u32) -> (r: Result<
        TrieMap,
        TrieError,
    >)
        requires
            bit_width == HAMT_BIT_WIDTH,
        ensures
            r is Ok ==> trie_contents(r.unwrap()) == contents_of_root(bit_width, root@)
                && trie_width(r.unwrap()) == bit_width,
    {
        let cid = Cid::try_from(root.bytes.as_slice()).map_err(|_| TrieError)?;
        let inner = Hamt::load_with_bit_width(&cid, Rc::clone(&store.inner), bit_width).map_err(
            |_| TrieError,
        )?;
        Ok(TrieMap { inner })
    }

    /// A handle to the store this trie lives on.
    /// Relies on `Hamt::store`, which returns the store the trie was
    /// created with.
    #[verifier::external_body]
    pub fn store(&self) -> BlockStore {
        BlockStore { inner: Rc::clone(self.inner.store()) }
    }

    /// Looks a key up; absent keys yield `None`, not an error.
    /// Relies on `Hamt::get` over the in-memory store: every reachable node
    /// was written by a flush of this tree, so the walk cannot fail.
    #[verifier::external_body]
    pub fn get(&self, key: &Vec<u8>) -> (r: Option<Vec<u8>>)
        requires
            trie_width(*self) == HAMT_BIT_WIDTH,
        ensures
            match r {
                Some(v) => trie_contents(*self).contains_key(key@) && v@ == trie_contents(
                    *self,
                )[key@],
                None => !trie_contents(*self).contains_key(key@),
            },
    {
        self.inner.get(&BytesKey(key.clone())).expect("in-memory trie walk").cloned()
    }

    /// Upserts a binding, returning the value it replaces, if any. The
    /// change is staged in memory and not part of any flushed root yet.
    /// Relies on `Hamt::set` over the in-memory store.
    #[verifier::external_body]
    pub fn set(&mut self, key: &Vec<u8>, value: Vec<u8>) -> (r: Option<Vec<u8>>)
        requires
            trie_width(*old(self)) == HAMT_BIT_WIDTH,
        ensures
            trie_contents(*final(self)) == trie_contents(*old(self)).insert(key@, value@),
            trie_width(*final(self)) == trie_width(*old(self)),
            match r {
                Some(v) => trie_contents(*old(self)).contains_key(key@) && v@ == trie_contents(
                    *old(self),
                )[key@],
                None => !trie_contents(*old(self)).contains_key(key@),
            },
    {
        self.inner.set(BytesKey(key.clone()), value).expect("in-memory trie walk")
    }

    /// Removes a binding, returning the removed value if the key was bound.
    /// Relies on `Hamt::delete` over the in-memory store.
    #[verifier::external_body]
    pub fn delete(&mut self, key: &Vec<u8>) -> (r: Option<Vec<u8>>)
        requires
            trie_width(*old(self)) == HAMT_BIT_WIDTH,
        ensures
            trie_contents(*final(self)) == trie_contents(*old(self)).remove(key@),
            trie_width(*final(self)) == trie_width(*old(self)),
            match r {
                Some(v) => trie_contents(*old(self)).contains_key(key@) && v@ == trie_contents(
                    *old(self),
                )[key@],
                None => !trie_contents(*old(self)).contains_key(key@),
            },
    {
        self.inner.delete(&BytesKey(key.clone())).expect("in-memory trie walk").map(|kv| kv.1)
    }

    /// Writes all staged nodes to the store and returns the new durable
    /// root. The contents are unchanged, and loading the returned root
    /// recovers exactly them.
    /// Relies on `Hamt::flush` over the in-memory store: the root id is
    /// recomputed from the contents alone.
    #[verifier::external_body]
    pub fn flush(&mut self) -> (r: RootId)
        requires
            trie_width(*old(self)) == HAMT_BIT_WIDTH,
        ensures
            trie_contents(*final(self)) == trie_contents(*old(self)),
            trie_width(*final(self)) == trie_width(*old(self)),
            r@ == root_of(trie_width(*old(self)), trie_contents(*old(self))),
            contents_of_root(trie_width(*old(self)), r@) == trie_contents(*old(self)),
    {
        let cid = self.inner.flush().expect("in-memory trie flush");
        RootId { bytes: cid.to_bytes() }
    }

    /// The raw keys of all entries, in trie traversal order. A fresh call
    /// re-derives the sequence from the current contents.
    /// Relies on `Hamt::for_each`, which visits every entry exactly once in
    /// traversal order.
    #[verifier::external_body]
    pub fn keys(&self) -> (r: Vec<Vec<u8>>)
        requires
            trie_width(*self) == HAMT_BIT_WIDTH,
        ensures
            views_of(r@) == trie_key_order(trie_width(*self), trie_contents(*self)),
            views_of(r@).to_set() =~= trie_contents(*self).dom(),
            views_of(r@).no_duplicates(),
    {
        let mut out: Vec<Vec<u8>> = Vec::new();
        self.inner.for_each(|k, _v| {
            out.push(k.0.clone());
            Ok(())
        }).expect("in-memory trie walk");
        out
    }
}

} // verus!
