//! The handle an opcode handler works through: the host-provided message
//! and chain context, and the current contract's storage trie.

use vstd::prelude::*;

use crate::error::{StatusCode, TrieError};
use crate::trie::{
    contents_of_root, empty_contents, root_of, trie_contents, trie_width, BlockStore, RootId,
    TrieMap, HAMT_BIT_WIDTH,
};
use crate::word::{word_be_bytes, word_from_be, U256};

verus! {

/// The host context of the current message: compact account identifiers
/// and plain chain quantities, as the runtime reports them.
#[derive(Clone, Copy, PartialEq, Eq, Structural, Debug)]
pub struct HostContext {
    /// Account id of the immediate caller.
    pub caller: u64,
    /// Account id of the receiving contract.
    pub receiver: u64,
    /// Account id of the origin of the call chain.
    pub origin: u64,
    /// Value carried by the message, in the chain's smallest unit.
    pub value_received: u128,
    /// The chain's current epoch.
    pub curr_epoch: i64,
    /// The current base fee, in the chain's smallest unit.
    pub base_fee: u128,
    /// The receiver's current balance, in the chain's smallest unit.
    pub current_balance: u128,
}

/// The raw trie key of a storage slot: the slot word's 32 big-endian bytes.
pub open spec fn slot_key(slot: U256) -> Seq<u8> {
    word_be_bytes(slot)
}

/// The storage contents after a store of `value` to `slot`: a zero value is
/// represented by absence, so it deletes the slot, and any other value is
/// bound verbatim.
pub open spec fn storage_after_store(c: Map<Seq<u8>, Seq<u8>>, slot: U256, value: U256) -> Map<
    Seq<u8>,
    Seq<u8>,
> {
    if value.is_zero_spec() {
        c.remove(slot_key(slot))
    } else {
        c.insert(slot_key(slot), word_be_bytes(value))
    }
}

/// Whether the bytes bound at a slot decode as a word; absent slots count,
/// reading as zero.
pub open spec fn slot_readable(c: Map<Seq<u8>, Seq<u8>>, slot: U256) -> bool {
    c.contains_key(slot_key(slot)) ==> c[slot_key(slot)].len() == 32
}

/// The word a load of `slot` observes: the bound value, or zero when the
/// slot is absent.
pub open spec fn slot_value(c: Map<Seq<u8>, Seq<u8>>, slot: U256) -> U256 {
    if c.contains_key(slot_key(slot)) {
        word_from_be(c[slot_key(slot)])
    } else {
        U256::zero_spec()
    }
}

/// A borrowed view of the host plus the current contract's storage trie;
/// recreated for every call, never persisted itself.
pub struct System {
    /// The host message and chain context.
    pub context: HostContext,
    /// The contract's storage slots.
    pub storage: TrieMap,
}

impl System {
    /// The logical storage contents: raw slot key bytes to value bytes.
    pub open spec fn storage_view(self) -> Map<Seq<u8>, Seq<u8>> {
        trie_contents(self.storage)
    }

    /// The storage trie always has the crate's fixed node width.
    pub open spec fn wf(self) -> bool {
        trie_width(self.storage) == HAMT_BIT_WIDTH
    }

    /// Creates a system over empty contract storage.
    pub fn new(store: &BlockStore, context: HostContext) -> (r: System)
        ensures
            r.storage_view() == empty_contents(),
            r.context == context,
            r.wf(),
    {
        System { context, storage: TrieMap::new(store, HAMT_BIT_WIDTH) }
    }

    /// Creates a system over the contract storage a root id identifies.
    pub fn from_root(store: &BlockStore, root: &RootId, context: HostContext) -> (r: Result<
        System,
        TrieError,
    >)
        ensures
            r is Ok ==> r.unwrap().storage_view() == contents_of_root(HAMT_BIT_WIDTH, root@)
                && r.unwrap().context == context && r.unwrap().wf(),
    {
        let storage = TrieMap::from_root(store, root, HAMT_BIT_WIDTH)?;
        Ok(System { context, storage })
    }

    /// Flushes staged storage mutations and returns the new durable root
    /// of the contract's storage.
    pub fn flush_storage(&mut self) -> (r: RootId)
        requires
            old(self).wf(),
        ensures
            final(self).context == old(self).context,
            final(self).storage_view() == old(self).storage_view(),
            final(self).wf(),
            r@ == root_of(HAMT_BIT_WIDTH, old(self).storage_view()),
            contents_of_root(HAMT_BIT_WIDTH, r@) == old(self).storage_view(),
    {
        self.storage.flush()
    }

    /// Reads a storage slot; an absent slot reads as `None`. Fails only on
    /// a slot whose bound bytes are not a 32-byte word.
    pub fn get_storage(&self, key: U256) -> (r: Result<Option<U256>, StatusCode>)
        requires
            self.wf(),
        ensures
            slot_readable(self.storage_view(), key) ==> r == Ok::<Option<U256>, StatusCode>(
                if self.storage_view().contains_key(slot_key(key)) {
                    Some(slot_value(self.storage_view(), key))
                } else {
                    None
                },
            ),
            !slot_readable(self.storage_view(), key) ==> r == Err::<Option<U256>, StatusCode>(
                StatusCode::Trie(TrieError),
            ),
    {
        let raw = key.to_be_bytes();
        match self.storage.get(&raw) {
            None => Ok(None),
            Some(bytes) => {
                if bytes.len() == 32 {
                    Ok(Some(U256::from_be_bytes(&bytes)))
                } else {
                    Err(StatusCode::Trie(TrieError))
                }
            },
        }
    }

    /// Writes a storage slot: `None` or an explicit zero deletes the slot,
    /// so a zero-valued slot is always represented by absence; any other
    /// value is bound verbatim. Never fails.
    pub fn set_storage(&mut self, key: U256, value: Option<U256>) -> (r: Result<(), StatusCode>)
        requires
            old(self).wf(),
        ensures
            r is Ok,
            final(self).context == old(self).context,
            final(self).wf(),
            final(self).storage_view() == storage_after_store(
                old(self).storage_view(),
                key,
                match value {
                    Some(v) => v,
                    None => U256::zero_spec(),
                },
            ),
    {
        let raw = key.to_be_bytes();
        let store_value = match value {
            Some(v) => {
                if v.is_zero() {
                    None
                } else {
                    Some(v)
                }
            },
            None => None,
        };
        match store_value {
            Some(v) => {
                self.storage.set(&raw, v.to_be_bytes());
            },
            None => {
                self.storage.delete(&raw);
            },
        }
        Ok(())
    }
}

} // verus!
