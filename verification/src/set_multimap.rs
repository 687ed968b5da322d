//! A multimap from chain epoch to a set of numeric identifiers, realized as
//! two trie layers: an outer trie from epoch key to the root id of an inner
//! presence set.

use vstd::prelude::*;

use crate::codec::{parse_uint_key, u64_be_bytes, u64_from_be, u64_key};
use crate::error::TrieError;
use crate::trie::{
    contents_of_root, empty_contents, root_of, trie_key_order, trie_contents, trie_width,
    views_of, BlockStore, RootId, TrieMap, HAMT_BIT_WIDTH,
};
use crate::trie_set::TrieSet;

verus! {

/// The raw outer-trie key under which an epoch's member set is stored: the
/// epoch's 64-bit pattern in big-endian bytes.
pub open spec fn epoch_key(epoch: i64) -> Seq<u8> {
    u64_be_bytes(epoch as u64)
}

/// The raw inner-trie key of a numeric value identifier.
pub open spec fn value_key(v: u64) -> Seq<u8> {
    u64_be_bytes(v)
}

/// The inner-set contents after marking each identifier of `vs` present
/// in `c`, in order.
pub open spec fn with_values(c: Map<Seq<u8>, Seq<u8>>, vs: Seq<u64>) -> Map<Seq<u8>, Seq<u8>>
    decreases vs.len(),
{
    if vs.len() == 0 {
        c
    } else {
        with_values(c, vs.drop_last()).insert(value_key(vs.last()), Seq::<u8>::empty())
    }
}

/// A trie of tries: each bound epoch holds the root id of the inner set of
/// its member identifiers. Removing the last member of an epoch leaves an
/// empty inner set bound, which only `remove_all` prunes.
pub struct SetMultimap {
    outer: TrieMap,
}

/// Encodes an epoch as its raw outer-trie key.
fn epoch_key_bytes(epoch: i64) -> (r: Vec<u8>)
    ensures
        r@ == epoch_key(epoch),
{
    u64_key(#[verifier::truncate] (epoch as u64))
}

impl SetMultimap {
    /// The contents of the outer trie: epoch key bytes to inner root id
    /// bytes.
    pub closed spec fn outer_view(self) -> Map<Seq<u8>, Seq<u8>> {
        trie_contents(self.outer)
    }

    /// The outer trie always has the crate's fixed node width.
    pub closed spec fn wf(self) -> bool {
        trie_width(self.outer) == HAMT_BIT_WIDTH
    }

    /// Whether an epoch is bound (possibly to an empty inner set).
    pub open spec fn has_epoch(self, epoch: i64) -> bool {
        self.outer_view().contains_key(epoch_key(epoch))
    }

    /// The root id bytes of a bound epoch's inner set.
    pub open spec fn inner_root(self, epoch: i64) -> Seq<u8> {
        self.outer_view()[epoch_key(epoch)]
    }

    /// The contents of a bound epoch's inner set.
    pub open spec fn inner_view(self, epoch: i64) -> Map<Seq<u8>, Seq<u8>> {
        contents_of_root(HAMT_BIT_WIDTH, self.inner_root(epoch))
    }

    /// Initializes a new empty multimap on the given store.
    pub fn new(bs: &BlockStore) -> (r: SetMultimap)
        ensures
            r.outer_view() == empty_contents(),
            r.wf(),
    {
        SetMultimap { outer: TrieMap::new(bs, HAMT_BIT_WIDTH) }
    }

    /// Loads the multimap that a root id identifies.
    pub fn from_root(bs: &BlockStore, root: &RootId) -> (r: Result<SetMultimap, TrieError>)
        ensures
            r is Ok ==> r.unwrap().outer_view() == contents_of_root(HAMT_BIT_WIDTH, root@)
                && r.unwrap().wf(),
    {
        let outer = TrieMap::from_root(bs, root, HAMT_BIT_WIDTH)?;
        Ok(SetMultimap { outer })
    }

    /// Flushes staged mutations and returns the multimap's durable root.
    pub fn root(&mut self) -> (r: RootId)
        requires
            old(self).wf(),
        ensures
            final(self).outer_view() == old(self).outer_view(),
            final(self).wf(),
            r@ == root_of(HAMT_BIT_WIDTH, old(self).outer_view()),
            contents_of_root(HAMT_BIT_WIDTH, r@) == old(self).outer_view(),
    {
        self.outer.flush()
    }

    /// Gets the member set stored at the given epoch; a read-only lookup
    /// that creates no entry for an absent epoch.
    pub fn get(&self, key: i64) -> (r: Result<Option<TrieSet>, TrieError>)
        requires
            self.wf(),
        ensures
            match r {
                Ok(opt) => match opt {
                    Some(s) => self.has_epoch(key) && s.map_view() == self.inner_view(key)
                        && s.wf(),
                    None => !self.has_epoch(key),
                },
                Err(_) => self.has_epoch(key),
            },
    {
        let ekey = epoch_key_bytes(key);
        match self.outer.get(&ekey) {
            None => Ok(None),
            Some(bytes) => {
                let root = RootId::from_bytes(bytes);
                let s = TrieSet::from_root(&self.outer.store(), &root)?;
                Ok(Some(s))
            },
        }
    }

    /// Puts one identifier into the epoch's set, creating the set if the
    /// epoch is unbound, and rebinds the epoch to the recomputed inner
    /// root, which then denotes the grown member set. An unbound epoch
    /// cannot fail; a trie failure leaves the multimap unchanged.
    pub fn put(&mut self, key: i64, value: u64) -> (r: Result<(), TrieError>)
        requires
            old(self).wf(),
        ensures
            final(self).wf(),
            !old(self).has_epoch(key) ==> r is Ok,
            r is Ok ==> final(self).has_epoch(key),
            r is Ok && !old(self).has_epoch(key) ==> final(self).outer_view() == old(
                self,
            ).outer_view().insert(
                epoch_key(key),
                root_of(HAMT_BIT_WIDTH, empty_contents().insert(value_key(value), Seq::<u8>::empty())),
            ) && final(self).inner_view(key) == empty_contents().insert(
                value_key(value),
                Seq::<u8>::empty(),
            ),
            r is Ok && old(self).has_epoch(key) ==> final(self).outer_view() == old(
                self,
            ).outer_view().insert(
                epoch_key(key),
                root_of(HAMT_BIT_WIDTH, old(self).inner_view(key).insert(value_key(value), Seq::<u8>::empty())),
            ) && final(self).inner_view(key) == old(self).inner_view(key).insert(
                value_key(value),
                Seq::<u8>::empty(),
            ),
            r is Err ==> final(self).outer_view() == old(self).outer_view(),
    {
        let set_opt = self.get(key)?;
        let mut set = match set_opt {
            Some(s) => s,
            None => TrieSet::new(&self.outer.store()),
        };

        set.put(&u64_key(value));

        let new_root = set.root();

        let ekey = epoch_key_bytes(key);
        self.outer.set(&ekey, new_root.into_bytes());
        Ok(())
    }

    /// Puts a batch of identifiers into one epoch's set, recomputing the
    /// inner root once rather than once per value; the rebound root then
    /// denotes the grown member set.
    pub fn put_many(&mut self, key: i64, values: &Vec<u64>) -> (r: Result<(), TrieError>)
        requires
            old(self).wf(),
        ensures
            final(self).wf(),
            !old(self).has_epoch(key) ==> r is Ok,
            r is Ok ==> final(self).has_epoch(key),
            r is Ok && !old(self).has_epoch(key) ==> final(self).outer_view() == old(
                self,
            ).outer_view().insert(epoch_key(key), root_of(HAMT_BIT_WIDTH, with_values(empty_contents(), values@)))
                && final(self).inner_view(key) == with_values(empty_contents(), values@),
            r is Ok && old(self).has_epoch(key) ==> final(self).outer_view() == old(
                self,
            ).outer_view().insert(
                epoch_key(key),
                root_of(HAMT_BIT_WIDTH, with_values(old(self).inner_view(key), values@)),
            ) && final(self).inner_view(key) == with_values(old(self).inner_view(key), values@),
            r is Err ==> final(self).outer_view() == old(self).outer_view(),
    {
        let set_opt = self.get(key)?;
        let mut set = match set_opt {
            Some(s) => s,
            None => TrieSet::new(&self.outer.store()),
        };
        let ghost base = set.map_view();

        let mut i: usize = 0;
        while i < values.len()
            invariant
                i <= values@.len(),
                set.wf(),
                set.map_view() == with_values(base, values@.take(i as int)),
            decreases values@.len() - i,
        {
            set.put(&u64_key(values[i]));
            proof {
                let pre = values@.take(i as int);
                let post = values@.take(i as int + 1);
                assert(post.drop_last() =~= pre);
                assert(post.last() == values@[i as int]);
            }
            i += 1;
        }
        proof {
            assert(values@.take(values@.len() as int) =~= values@);
        }

        let new_root = set.root();

        let ekey = epoch_key_bytes(key);
        self.outer.set(&ekey, new_root.into_bytes());
        Ok(())
    }

    /// Removes one identifier from the epoch's set if the epoch is bound;
    /// an unbound epoch is a no-op, not an error. Removing the last member
    /// leaves the epoch bound to a root denoting an empty set.
    pub fn remove(&mut self, key: i64, v: u64) -> (r: Result<(), TrieError>)
        requires
            old(self).wf(),
        ensures
            final(self).wf(),
            !old(self).has_epoch(key) ==> r is Ok && final(self).outer_view() == old(
                self,
            ).outer_view(),
            r is Ok && old(self).has_epoch(key) ==> final(self).outer_view() == old(
                self,
            ).outer_view().insert(
                epoch_key(key),
                root_of(HAMT_BIT_WIDTH, old(self).inner_view(key).remove(value_key(v))),
            ) && final(self).has_epoch(key) && final(self).inner_view(key) == old(
                self,
            ).inner_view(key).remove(value_key(v)),
            r is Err ==> final(self).outer_view() == old(self).outer_view(),
    {
        let set_opt = self.get(key)?;
        let mut set = match set_opt {
            Some(s) => s,
            None => {
                return Ok(());
            },
        };

        set.delete(&u64_key(v));

        let new_root = set.root();

        let ekey = epoch_key_bytes(key);
        self.outer.set(&ekey, new_root.into_bytes());
        Ok(())
    }

    /// Unconditionally deletes the epoch's entire entry, whatever the inner
    /// set holds.
    pub fn remove_all(&mut self, key: i64) -> (r: Result<(), TrieError>)
        requires
            old(self).wf(),
        ensures
            r is Ok,
            final(self).wf(),
            final(self).outer_view() == old(self).outer_view().remove(epoch_key(key)),
    {
        let ekey = epoch_key_bytes(key);
        self.outer.delete(&ekey);
        Ok(())
    }

    /// Calls `f` on each member identifier of the epoch's set, decoding
    /// each raw key back to its number; an unbound epoch is a no-op. The
    /// first failure, of loading the set, of decoding a key or of `f`,
    /// aborts the traversal at once and is returned. The contract keeps to
    /// the success case: the error carries no payload that could say which
    /// step failed, and with an opaque callback the visit count is not
    /// statable.
    pub fn for_each<F: Fn(u64) -> Result<(), TrieError>>(&self, key: i64, f: F) -> (r: Result<
        (),
        TrieError,
    >)
        requires
            self.wf(),
            forall|v: u64| #[trigger] call_requires(f, (v,)),
        ensures
            !self.has_epoch(key) ==> r is Ok,
            r is Ok && self.has_epoch(key) ==> forall|kb: Seq<u8>|
                #[trigger] self.inner_view(key).dom().contains(kb) ==> kb.len() == 8
                    && call_ensures(f, (u64_from_be(kb),), Ok(())),
    {
        let set = match self.get(key)? {
            Some(s) => s,
            None => {
                return Ok(());
            },
        };

        let raw = set.raw_members();
        let mut i: usize = 0;
        while i < raw.len()
            invariant
                i <= raw@.len(),
                self.has_epoch(key),
                set.map_view() == self.inner_view(key),
                views_of(raw@) == trie_key_order(HAMT_BIT_WIDTH, set.map_view()),
                views_of(raw@).to_set() =~= set.map_view().dom(),
                forall|v: u64| #[trigger] call_requires(f, (v,)),
                forall|j: int| 0 <= j < i ==> (#[trigger] raw@[j]@).len() == 8 && call_ensures(
                    f,
                    (u64_from_be(raw@[j]@),),
                    Ok(()),
                ),
            decreases raw@.len() - i,
        {
            let v = match parse_uint_key(&raw[i]) {
                Ok(v) => v,
                Err(e) => {
                    return Err(e);
                },
            };
            let fr = f(v);
            match fr {
                Ok(u) => {
                    proof {
                        assert(u == ());
                        assert(raw@[i as int]@.len() == 8);
                        assert(v == u64_from_be(raw@[i as int]@));
                        assert(fr == Ok::<(), TrieError>(()));
                        assert(call_ensures(f, (v,), Ok(())));
                    }
                },
                Err(e) => {
                    return Err(e);
                },
            }
            i += 1;
        }
        proof {
            assert forall|kb: Seq<u8>| #[trigger]
                self.inner_view(key).dom().contains(kb) implies kb.len() == 8 && call_ensures(
                f,
                (u64_from_be(kb),),
                Ok(()),
            ) by {
                assert(views_of(raw@).to_set().contains(kb));
                assert(views_of(raw@).contains(kb));
                let j = choose|j: int| 0 <= j < views_of(raw@).len() && views_of(raw@)[j] == kb;
                assert(raw@[j]@ == kb);
            }
        }
        Ok(())
    }
}

/// Set semantics: marking a member that is already present changes
/// nothing — the inner contents, and hence the root a flush would rebind,
/// are the same after the repeated put.
pub proof fn lemma_put_idempotent(c: Map<Seq<u8>, Seq<u8>>, v: u64)
    requires
        c.contains_key(value_key(v)),
        c[value_key(v)] == Seq::<u8>::empty(),
    ensures
        c.insert(value_key(v), Seq::<u8>::empty()) == c,
        root_of(HAMT_BIT_WIDTH, c.insert(value_key(v), Seq::<u8>::empty())) == root_of(
            HAMT_BIT_WIDTH,
            c,
        ),
{
    assert(c.insert(value_key(v), Seq::<u8>::empty()) =~= c);
}

/// A batch put is the member-by-member puts: extending the batch by one
/// identifier inserts exactly that member into the batch's contents, so
/// `put_many` and a sequence of `put` calls rebind the same root.
pub proof fn lemma_with_values_unfolds(c: Map<Seq<u8>, Seq<u8>>, vs: Seq<u64>, v: u64)
    ensures
        with_values(c, vs.push(v)) == with_values(c, vs).insert(value_key(v), Seq::<u8>::empty()),
{
    assert(vs.push(v).drop_last() =~= vs);
    assert(vs.push(v).last() == v);
}

} // verus!
