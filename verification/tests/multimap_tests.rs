use std::cell::RefCell;

use evm_state::codec::{parse_uint_key, u64_key};
use evm_state::error::TrieError;
use evm_state::set_multimap::SetMultimap;
use evm_state::trie::BlockStore;

fn collect_members(mm: &SetMultimap, epoch: i64) -> Vec<u64> {
    let seen: RefCell<Vec<u64>> = RefCell::new(Vec::new());
    mm.for_each(epoch, |v: u64| -> Result<(), TrieError> {
        seen.borrow_mut().push(v);
        Ok(())
    })
    .unwrap();
    let mut out = seen.into_inner();
    out.sort();
    out
}

#[test]
fn put_then_get_contains_value() {
    let bs = BlockStore::new();
    let mut mm = SetMultimap::new(&bs);
    mm.put(10, 7).unwrap();
    let set = mm.get(10).unwrap().expect("epoch bound after put");
    let raw = set.raw_members();
    assert!(raw.iter().any(|k| k == &u64_key(7)));
}

#[test]
fn put_many_then_for_each_visits_exactly_the_batch() {
    let bs = BlockStore::new();
    let mut mm = SetMultimap::new(&bs);
    mm.put_many(10, &vec![7, 8, 9]).unwrap();
    assert_eq!(collect_members(&mm, 10), vec![7, 8, 9]);
}

#[test]
fn put_is_idempotent_per_member() {
    let bs = BlockStore::new();
    let mut mm = SetMultimap::new(&bs);
    mm.put(10, 7).unwrap();
    mm.put(10, 7).unwrap();
    assert_eq!(collect_members(&mm, 10), vec![7]);
}

#[test]
fn put_many_empty_batch_binds_an_empty_set() {
    let bs = BlockStore::new();
    let mut mm = SetMultimap::new(&bs);
    mm.put_many(10, &vec![]).unwrap();
    let set = mm.get(10).unwrap().expect("epoch bound to an empty set");
    assert!(set.raw_members().is_empty());
}

#[test]
fn remove_all_then_get_returns_none() {
    let bs = BlockStore::new();
    let mut mm = SetMultimap::new(&bs);
    mm.put_many(10, &vec![7, 8]).unwrap();
    mm.remove_all(10).unwrap();
    assert!(mm.get(10).unwrap().is_none());
}

#[test]
fn remove_sole_member_leaves_present_but_empty_set() {
    let bs = BlockStore::new();
    let mut mm = SetMultimap::new(&bs);
    mm.put(10, 7).unwrap();
    mm.remove(10, 7).unwrap();
    let set = mm.get(10).unwrap().expect("epoch stays bound to an empty set");
    assert!(set.raw_members().is_empty());
    assert_eq!(collect_members(&mm, 10), Vec::<u64>::new());
}

#[test]
fn remove_on_unbound_epoch_is_a_noop() {
    let bs = BlockStore::new();
    let mut mm = SetMultimap::new(&bs);
    mm.remove(10, 7).unwrap();
    assert!(mm.get(10).unwrap().is_none());
}

#[test]
fn epochs_are_independent() {
    let bs = BlockStore::new();
    let mut mm = SetMultimap::new(&bs);
    mm.put(10, 7).unwrap();
    mm.put(11, 8).unwrap();
    assert_eq!(collect_members(&mm, 10), vec![7]);
    assert_eq!(collect_members(&mm, 11), vec![8]);
    mm.remove_all(10).unwrap();
    assert!(mm.get(10).unwrap().is_none());
    assert_eq!(collect_members(&mm, 11), vec![8]);
}

#[test]
fn root_reopens_to_same_members() {
    let bs = BlockStore::new();
    let mut mm = SetMultimap::new(&bs);
    mm.put_many(10, &vec![7, 8, 9]).unwrap();
    let root = mm.root();
    let reopened = SetMultimap::from_root(&bs, &root).unwrap();
    assert_eq!(collect_members(&reopened, 10), vec![7, 8, 9]);
}

#[test]
fn same_mutations_reach_same_root() {
    let bs1 = BlockStore::new();
    let mut a = SetMultimap::new(&bs1);
    a.put(10, 7).unwrap();
    a.put(10, 8).unwrap();
    a.put(12, 9).unwrap();
    let bs2 = BlockStore::new();
    let mut b = SetMultimap::new(&bs2);
    b.put(12, 9).unwrap();
    b.put(10, 8).unwrap();
    b.put(10, 7).unwrap();
    assert_eq!(a.root(), b.root());
}

#[test]
fn for_each_aborts_on_first_callback_failure() {
    let bs = BlockStore::new();
    let mut mm = SetMultimap::new(&bs);
    mm.put_many(10, &vec![7, 8, 9]).unwrap();
    let count: RefCell<u32> = RefCell::new(0);
    let r = mm.for_each(10, |_v: u64| -> Result<(), TrieError> {
        *count.borrow_mut() += 1;
        Err(TrieError)
    });
    assert_eq!(r, Err(TrieError));
    assert_eq!(*count.borrow(), 1);
}

#[test]
fn for_each_on_unbound_epoch_is_a_noop() {
    let bs = BlockStore::new();
    let mm = SetMultimap::new(&bs);
    let r = mm.for_each(10, |_v: u64| -> Result<(), TrieError> { Err(TrieError) });
    assert_eq!(r, Ok(()));
}

#[test]
fn parse_uint_key_round_trips() {
    assert_eq!(parse_uint_key(&u64_key(7)), Ok(7));
    assert_eq!(parse_uint_key(&u64_key(u64::MAX)), Ok(u64::MAX));
}

#[test]
fn parse_uint_key_rejects_wrong_width() {
    assert_eq!(parse_uint_key(&vec![1, 2, 3]), Err(TrieError));
}

#[test]
fn negative_epochs_are_ordinary_keys() {
    let bs = BlockStore::new();
    let mut mm = SetMultimap::new(&bs);
    mm.put(-1, 5).unwrap();
    mm.put(1, 6).unwrap();
    assert_eq!(collect_members(&mm, -1), vec![5]);
    assert_eq!(collect_members(&mm, 1), vec![6]);
}

#[test]
fn extreme_identifiers_round_trip() {
    let bs = BlockStore::new();
    let mut mm = SetMultimap::new(&bs);
    mm.put_many(10, &vec![0, u64::MAX]).unwrap();
    assert_eq!(collect_members(&mm, 10), vec![0, u64::MAX]);
}

#[test]
fn from_root_fails_on_a_store_without_the_blocks() {
    let bs = BlockStore::new();
    let mut mm = SetMultimap::new(&bs);
    mm.put(10, 7).unwrap();
    let root = mm.root();
    let other = BlockStore::new();
    assert!(SetMultimap::from_root(&other, &root).is_err());
}
