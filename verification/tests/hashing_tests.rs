use evm_state::hashing::Sha2HasherWrapper;

const ABC_DIGEST: [u8; 32] = [
    0xba, 0x78, 0x16, 0xbf, 0x8f, 0x01, 0xcf, 0xea, 0x41, 0x41, 0x40, 0xde, 0x5d, 0xae, 0x22,
    0x23, 0xb0, 0x03, 0x61, 0xa3, 0x96, 0x17, 0x7a, 0x9c, 0xb4, 0x10, 0xff, 0x61, 0xf2, 0x00,
    0x15, 0xad,
];

const EMPTY_DIGEST: [u8; 32] = [
    0xe3, 0xb0, 0xc4, 0x42, 0x98, 0xfc, 0x1c, 0x14, 0x9a, 0xfb, 0xf4, 0xc8, 0x99, 0x6f, 0xb9,
    0x24, 0x27, 0xae, 0x41, 0xe4, 0x64, 0x9b, 0x93, 0x4c, 0xa4, 0x95, 0x99, 0x1b, 0x78, 0x52,
    0xb8, 0x55,
];

#[test]
fn finalize_computes_canonical_digest() {
    let mut h = Sha2HasherWrapper::new();
    h.write(b"abc");
    assert_eq!(h.finalize(), ABC_DIGEST);
}

#[test]
fn finalize_of_nothing_is_empty_digest() {
    let mut h = Sha2HasherWrapper::new();
    assert_eq!(h.finalize(), EMPTY_DIGEST);
}

#[test]
fn digest_depends_only_on_bytes_since_last_finalize() {
    let mut h = Sha2HasherWrapper::new();
    h.write(b"previous key bytes");
    let _ = h.finalize();
    h.write(b"abc");
    assert_eq!(h.finalize(), ABC_DIGEST);
}

#[test]
fn writes_accumulate_until_finalize() {
    let mut h = Sha2HasherWrapper::new();
    h.write(b"a");
    h.write(b"b");
    h.write(b"c");
    assert_eq!(h.finalize(), ABC_DIGEST);
}

#[test]
fn rt_hash_hashes_one_key_and_resets() {
    let mut h = Sha2HasherWrapper::new();
    assert_eq!(h.rt_hash(b"abc"), ABC_DIGEST);
    assert_eq!(h.rt_hash(b"abc"), ABC_DIGEST);
}

#[test]
fn finish_is_unused_and_zero() {
    let h = Sha2HasherWrapper::new();
    assert_eq!(h.finish(), 0);
}
