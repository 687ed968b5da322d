//! A presence-only set: a trie whose values carry no information, so that a
//! key is a member exactly when it is bound.

use vstd::prelude::*;

use crate::error::TrieError;
use crate::trie::{
    contents_of_root, empty_contents, root_of, trie_contents, trie_key_order, trie_width,
    views_of, BlockStore, RootId, TrieMap, HAMT_BIT_WIDTH,
};

verus! {

/// A set of raw byte keys stored as a trie, member keys bound to an empty
/// value. Mutations are staged in memory until `root` flushes them.
pub struct TrieSet {
    map: TrieMap,
}

impl TrieSet {
    /// The full contents of the backing trie.
    pub closed spec fn map_view(self) -> Map<Seq<u8>, Seq<u8>> {
        trie_contents(self.map)
    }

    /// Every set is a trie of the crate's fixed node width.
    pub closed spec fn wf(self) -> bool {
        trie_width(self.map) == HAMT_BIT_WIDTH
    }

    /// The members of the set: the keys the backing trie binds.
    pub open spec fn members(self) -> Set<Seq<u8>> {
        self.map_view().dom()
    }

    /// Creates an empty set on the given store.
    pub fn new(store: &BlockStore) -> (r: TrieSet)
        ensures
            r.map_view() == empty_contents(),
            r.wf(),
    {
        TrieSet { map: TrieMap::new(store, HAMT_BIT_WIDTH) }
    }

    /// Loads the set that a root id identifies.
    pub fn from_root(store: &BlockStore, root: &RootId) -> (r: Result<TrieSet, TrieError>)
        ensures
            r is Ok ==> r.unwrap().map_view() == contents_of_root(HAMT_BIT_WIDTH, root@)
                && r.unwrap().wf(),
    {
        let map = TrieMap::from_root(store, root, HAMT_BIT_WIDTH)?;
        Ok(TrieSet { map })
    }

    /// A handle to the store this set lives on.
    pub fn store(&self) -> BlockStore {
        self.map.store()
    }

    /// Marks a key present.
    pub fn put(&mut self, key: &Vec<u8>)
        requires
            old(self).wf(),
        ensures
            final(self).map_view() == old(self).map_view().insert(key@, Seq::<u8>::empty()),
            final(self).wf(),
    {
        let empty: Vec<u8> = Vec::new();
        self.map.set(key, empty);
    }

    /// Unmarks a key; absent keys are left as they are.
    pub fn delete(&mut self, key: &Vec<u8>)
        requires
            old(self).wf(),
        ensures
            final(self).map_view() == old(self).map_view().remove(key@),
            final(self).wf(),
    {
        self.map.delete(key);
    }

    /// Flushes staged mutations and returns the new durable root.
    pub fn root(&mut self) -> (r: RootId)
        requires
            old(self).wf(),
        ensures
            final(self).map_view() == old(self).map_view(),
            final(self).wf(),
            r@ == root_of(HAMT_BIT_WIDTH, old(self).map_view()),
            contents_of_root(HAMT_BIT_WIDTH, r@) == old(self).map_view(),
    {
        self.map.flush()
    }

    /// The raw member keys in trie traversal order. A fresh call re-derives
    /// the sequence from the current contents, observing any mutation made
    /// since a previous traversal.
    pub fn raw_members(&self) -> (r: Vec<Vec<u8>>)
        requires
            self.wf(),
        ensures
            views_of(r@) == trie_key_order(HAMT_BIT_WIDTH, self.map_view()),
            views_of(r@).to_set() =~= self.members(),
            views_of(r@).no_duplicates(),
    {
        self.map.keys()
    }
}

} // verus!
