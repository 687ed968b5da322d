use vstd::prelude::*;

verus! {

/// Failure inside the persistent map layer: a missing block, a malformed
/// node or value, or a root that cannot be decoded. It is unrecoverable for
/// the operation that hit it and is never retried.
#[derive(Clone, Copy, PartialEq, Eq, Structural, Debug)]
pub struct TrieError;

/// Outcome signal of an opcode handler. The first failure aborts the
/// handler's remaining side effects and is returned unchanged to the
/// dispatch loop.
#[derive(Clone, Copy, PartialEq, Eq, Structural, Debug)]
pub enum StatusCode {
    /// The handler required operands that the stack does not hold.
    StackUnderflow,
    /// A push was attempted on a full stack.
    StackOverflow,
    /// The opcode is pending a host capability; it must fail rather than
    /// return a default value.
    NotImplemented,
    /// A lifecycle opcode was given an address that is not identifier-based.
    UnsupportedAddressForm,
    /// A storage trie operation failed.
    Trie(TrieError),
}

} // verus!
