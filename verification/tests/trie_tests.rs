use evm_state::trie::{BlockStore, TrieMap, HAMT_BIT_WIDTH};
use evm_state::trie_set::TrieSet;

fn bytes(v: &[u8]) -> Vec<u8> {
    v.to_vec()
}

#[test]
fn get_on_fresh_trie_is_none() {
    let bs = BlockStore::new();
    let t = TrieMap::new(&bs, HAMT_BIT_WIDTH);
    assert_eq!(t.get(&bytes(b"a")), None);
}

#[test]
fn set_binds_and_returns_previous_value() {
    let bs = BlockStore::new();
    let mut t = TrieMap::new(&bs, HAMT_BIT_WIDTH);
    assert_eq!(t.set(&bytes(b"a"), bytes(b"one")), None);
    assert_eq!(t.get(&bytes(b"a")), Some(bytes(b"one")));
    assert_eq!(t.set(&bytes(b"a"), bytes(b"two")), Some(bytes(b"one")));
    assert_eq!(t.get(&bytes(b"a")), Some(bytes(b"two")));
}

#[test]
fn delete_unbinds_and_returns_removed_value() {
    let bs = BlockStore::new();
    let mut t = TrieMap::new(&bs, HAMT_BIT_WIDTH);
    t.set(&bytes(b"a"), bytes(b"one"));
    assert_eq!(t.delete(&bytes(b"a")), Some(bytes(b"one")));
    assert_eq!(t.get(&bytes(b"a")), None);
    assert_eq!(t.delete(&bytes(b"a")), None);
}

#[test]
fn flush_and_reload_recover_contents() {
    let bs = BlockStore::new();
    let mut t = TrieMap::new(&bs, HAMT_BIT_WIDTH);
    for i in 0u8..50 {
        t.set(&vec![i], vec![i, i]);
    }
    let root = t.flush();
    let reloaded = TrieMap::from_root(&bs, &root, HAMT_BIT_WIDTH).unwrap();
    for i in 0u8..50 {
        assert_eq!(reloaded.get(&vec![i]), Some(vec![i, i]));
    }
    assert_eq!(reloaded.get(&vec![50]), None);
}

#[test]
fn identical_contents_reach_identical_roots() {
    let bs1 = BlockStore::new();
    let mut a = TrieMap::new(&bs1, HAMT_BIT_WIDTH);
    a.set(&bytes(b"x"), bytes(b"1"));
    a.set(&bytes(b"y"), bytes(b"2"));
    a.set(&bytes(b"z"), bytes(b"3"));
    a.delete(&bytes(b"z"));

    let bs2 = BlockStore::new();
    let mut b = TrieMap::new(&bs2, HAMT_BIT_WIDTH);
    b.set(&bytes(b"y"), bytes(b"2"));
    b.set(&bytes(b"x"), bytes(b"1"));

    assert_eq!(a.flush(), b.flush());
}

#[test]
fn staged_mutations_do_not_move_the_root_until_flush() {
    let bs = BlockStore::new();
    let mut t = TrieMap::new(&bs, HAMT_BIT_WIDTH);
    t.set(&bytes(b"a"), bytes(b"one"));
    let r1 = t.flush();
    t.set(&bytes(b"b"), bytes(b"two"));
    t.delete(&bytes(b"b"));
    let r2 = t.flush();
    assert_eq!(r1, r2);
}

#[test]
fn keys_visits_every_entry_exactly_once() {
    let bs = BlockStore::new();
    let mut t = TrieMap::new(&bs, HAMT_BIT_WIDTH);
    let mut expected: Vec<Vec<u8>> = (0u8..20).map(|i| vec![i]).collect();
    for k in &expected {
        t.set(k, bytes(b"v"));
    }
    let mut got = t.keys();
    got.sort();
    expected.sort();
    assert_eq!(got, expected);
}

#[test]
fn keys_order_is_stable_for_equal_contents() {
    let bs1 = BlockStore::new();
    let mut a = TrieMap::new(&bs1, HAMT_BIT_WIDTH);
    let bs2 = BlockStore::new();
    let mut b = TrieMap::new(&bs2, HAMT_BIT_WIDTH);
    for i in 0u8..20 {
        a.set(&vec![i], vec![]);
        b.set(&vec![19 - i], vec![]);
    }
    assert_eq!(a.keys(), b.keys());
}

#[test]
fn from_root_rejects_unknown_root() {
    let bs = BlockStore::new();
    let mut t = TrieMap::new(&bs, HAMT_BIT_WIDTH);
    t.set(&bytes(b"a"), bytes(b"one"));
    let root = t.flush();
    let other = BlockStore::new();
    assert!(TrieMap::from_root(&other, &root, HAMT_BIT_WIDTH).is_err());
}

#[test]
fn set_members_are_keys_with_empty_values() {
    let bs = BlockStore::new();
    let mut s = TrieSet::new(&bs);
    s.put(&bytes(b"m"));
    s.put(&bytes(b"n"));
    s.delete(&bytes(b"n"));
    let members = s.raw_members();
    assert_eq!(members, vec![bytes(b"m")]);
}

#[test]
fn set_root_reopens_to_same_members() {
    let bs = BlockStore::new();
    let mut s = TrieSet::new(&bs);
    s.put(&bytes(b"m"));
    s.put(&bytes(b"n"));
    let root = s.root();
    let reopened = TrieSet::from_root(&bs, &root).unwrap();
    let mut members = reopened.raw_members();
    members.sort();
    assert_eq!(members, vec![bytes(b"m"), bytes(b"n")]);
}

#[test]
fn set_traversal_is_restartable_and_observes_mutations() {
    let bs = BlockStore::new();
    let mut s = TrieSet::new(&bs);
    s.put(&bytes(b"m"));
    let first = s.raw_members();
    assert_eq!(first, vec![bytes(b"m")]);
    s.put(&bytes(b"n"));
    let mut second = s.raw_members();
    second.sort();
    assert_eq!(second, vec![bytes(b"m"), bytes(b"n")]);
}
