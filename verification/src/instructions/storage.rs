//! Storage accessors: `sload` and `sstore` bind the opcode semantics to the
//! contract's storage trie, with a zero value always represented by
//! absence.

use vstd::prelude::*;

use crate::error::{StatusCode, TrieError};
use crate::exec_state::ExecutionState;
use crate::instructions::{pops_two_words, pops_word, replaces_top, same_state};
use crate::system::{slot_key, slot_readable, slot_value, storage_after_store, System};
use crate::trie::{root_of, HAMT_BIT_WIDTH};
use crate::word::{lemma_word_be_injective, lemma_word_be_round_trip, word_be_bytes, U256};

verus! {

/// Pops a slot key, looks the slot up — an absent slot reads as numeric
/// zero — and pushes the value.
pub fn sload(state: &mut ExecutionState, platform: &mut System) -> (r: Result<(), StatusCode>)
    requires
        old(state).well_formed(),
        old(platform).wf(),
    ensures
        final(state).well_formed(),
        *final(platform) == *old(platform),
        old(state).stack@.len() == 0 ==> r == Err::<(), StatusCode>(StatusCode::StackUnderflow)
            && same_state(*old(state), *final(state)),
        old(state).stack@.len() > 0 && !slot_readable(old(platform).storage_view(), old(state).stack@.last())
            ==> r == Err::<(), StatusCode>(StatusCode::Trie(TrieError))
            && pops_word(*old(state), *final(state)),
        old(state).stack@.len() > 0 && slot_readable(old(platform).storage_view(), old(state).stack@.last())
            ==> r is Ok
            && replaces_top(*old(state), *final(state), slot_value(old(platform).storage_view(), old(state).stack@.last())),
{
    let location = match state.stack.pop() {
        Ok(w) => w,
        Err(e) => {
            return Err(e);
        },
    };

    let value = match platform.get_storage(location) {
        Ok(Some(val)) => val,
        Ok(None) => U256::zero(),
        Err(e) => {
            return Err(e);
        },
    };
    state.stack.push(value)
}

/// Pops a slot key and a value; a zero value deletes the slot, any other
/// value is bound verbatim. The mutation is visible to subsequent loads in
/// the same call; durable commitment happens at an explicit flush outside
/// this handler.
pub fn sstore(state: &mut ExecutionState, platform: &mut System) -> (r: Result<(), StatusCode>)
    requires
        old(state).well_formed(),
        old(platform).wf(),
    ensures
        final(state).well_formed(),
        final(platform).context == old(platform).context,
        final(platform).wf(),
        old(state).stack@.len() < 2 ==> r == Err::<(), StatusCode>(StatusCode::StackUnderflow)
            && same_state(*old(state), *final(state))
            && final(platform).storage_view() == old(platform).storage_view(),
        old(state).stack@.len() >= 2 ==> r is Ok
            && pops_two_words(*old(state), *final(state))
            && final(platform).storage_view() == storage_after_store(old(platform).storage_view(), old(state).stack@.last(), old(state).stack@[old(state).stack@.len() - 2]),
{
    if state.stack.len() < 2 {
        return Err(StatusCode::StackUnderflow);
    }
    let location = match state.stack.pop() {
        Ok(w) => w,
        Err(e) => {
            return Err(e);
        },
    };
    let value = match state.stack.pop() {
        Ok(w) => w,
        Err(e) => {
            return Err(e);
        },
    };

    let opt_value = if value.is_zero() {
        None
    } else {
        Some(value)
    };
    platform.set_storage(location, opt_value)
}

/// A store of a nonzero word followed by a load of the same slot observes
/// exactly that word, whatever the storage held before.
pub proof fn lemma_store_then_load(c: Map<Seq<u8>, Seq<u8>>, k: U256, v: U256)
    requires
        !v.is_zero_spec(),
    ensures
        slot_readable(storage_after_store(c, k, v), k),
        slot_value(storage_after_store(c, k, v), k) == v,
{
    let c1 = storage_after_store(c, k, v);
    assert(c1.contains_key(slot_key(k)));
    assert(c1[slot_key(k)] == word_be_bytes(v));
    assert(word_be_bytes(v).len() == 32);
    lemma_word_be_round_trip(v);
}

/// A slot never written, or one explicitly stored zero, reads as numeric
/// zero, and the map holds no entry for it.
pub proof fn lemma_zero_reads_as_absent(c: Map<Seq<u8>, Seq<u8>>, k: U256)
    ensures
        !storage_after_store(c, k, U256::zero_spec()).contains_key(slot_key(k)),
        slot_value(storage_after_store(c, k, U256::zero_spec()), k) == U256::zero_spec(),
        !c.contains_key(slot_key(k)) ==> slot_value(c, k) == U256::zero_spec(),
{
}

/// Distinct slots are independent: a store to one slot leaves what any
/// other slot holds, and whether it is bound at all, untouched.
pub proof fn lemma_distinct_slots_independent(c: Map<Seq<u8>, Seq<u8>>, k1: U256, k2: U256, v: U256)
    requires
        k1 != k2,
    ensures
        storage_after_store(c, k2, v).contains_key(slot_key(k1)) == c.contains_key(slot_key(k1)),
        slot_value(storage_after_store(c, k2, v), k1) == slot_value(c, k1),
{
    if slot_key(k1) == slot_key(k2) {
        lemma_word_be_injective(k1, k2);
    }
}

/// Storing zero to an absent slot mutates nothing: the contents are
/// unchanged, and so is the root a flush computes from them.
pub proof fn lemma_store_zero_absent_keeps_root(c: Map<Seq<u8>, Seq<u8>>, k: U256)
    requires
        !c.contains_key(slot_key(k)),
    ensures
        storage_after_store(c, k, U256::zero_spec()) == c,
        root_of(HAMT_BIT_WIDTH, storage_after_store(c, k, U256::zero_spec())) == root_of(
            HAMT_BIT_WIDTH,
            c,
        ),
{
    assert(storage_after_store(c, k, U256::zero_spec()) =~= c);
}

} // verus!
