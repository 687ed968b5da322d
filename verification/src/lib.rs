//! Storage and context core of an Ethereum-style bytecode interpreter that
//! runs on a content-addressed host chain.
//!
//! The crate provides the persistent authenticated key-value trie that backs
//! contract storage (`trie`), presence sets and epoch-indexed set multimaps
//! built on it (`trie_set`, `set_multimap`), the streaming hash adapter that
//! binds trie hashing to the chain's canonical digest (`hashing`), and the
//! opcode handlers that read host context or touch storage (`instructions`).

pub mod address;
pub mod codec;
pub mod exec_state;
pub mod error;
pub mod hashing;
pub mod instructions;
pub mod set_multimap;
pub mod stack;
pub mod system;
pub mod trie;
pub mod trie_set;
pub mod word;
