//! Addresses as the interpreter sees them: either the host chain's compact
//! account identifier, or a byte-derived address that lifecycle opcodes do
//! not yet support and must reject rather than coerce.

use vstd::prelude::*;

use crate::error::StatusCode;
use crate::word::U256;

verus! {

/// How many bits an identifier-based address word may use.
pub open spec fn fits_id(w: U256) -> bool {
    w.hi == 0 && w.mid_hi == 0 && w.mid_lo == 0
}

/// Whether a word is a well-formed 160-bit byte-derived address.
pub open spec fn fits_eth_address(w: U256) -> bool {
    w.hi == 0 && w.mid_hi < 0x1_0000_0000
}

/// An address: an identifier-based form holding the chain account id, or a
/// byte-derived 160-bit form held as its word.
#[derive(Clone, Copy, PartialEq, Eq, Structural, Debug)]
pub enum Address {
    /// A compact chain account identifier.
    Id(u64),
    /// A byte-derived address, kept as the 160-bit word it came from.
    Bytes(U256),
}

impl Address {
    /// The canonical word of an identifier-based address: the identifier in
    /// the low-order bytes of an otherwise zero-padded word.
    pub open spec fn id_word(id: u64) -> U256 {
        U256 { hi: 0, mid_hi: 0, mid_lo: 0, lo: id }
    }

    /// Builds the identifier-based address of a chain account.
    pub fn from_id(id: u64) -> (r: Address)
        ensures
            r == Address::Id(id),
    {
        Address::Id(id)
    }

    /// The EVM-style word of this address.
    pub fn as_evm_word(&self) -> (r: U256)
        ensures
            self is Id ==> r == Address::id_word(self->Id_0),
            self is Bytes ==> r == self->Bytes_0,
    {
        match self {
            Address::Id(id) => U256 { hi: 0, mid_hi: 0, mid_lo: 0, lo: *id },
            Address::Bytes(w) => *w,
        }
    }

    /// The account identifier, if this is the identifier-based form.
    pub fn as_id_address(&self) -> (r: Option<u64>)
        ensures
            self is Id ==> r == Some(self->Id_0),
            self is Bytes ==> r is None,
    {
        match self {
            Address::Id(id) => Some(*id),
            Address::Bytes(_) => None,
        }
    }

    /// Reads an address back from a word: a word within 64 bits is the
    /// identifier form, a word within 160 bits is the byte-derived form,
    /// and anything wider is no address at all.
    pub fn try_from(w: U256) -> (r: Result<Address, StatusCode>)
        ensures
            fits_id(w) ==> r == Ok::<Address, StatusCode>(Address::Id(w.lo)),
            !fits_id(w) && fits_eth_address(w) ==> r == Ok::<Address, StatusCode>(
                Address::Bytes(w),
            ),
            !fits_eth_address(w) ==> r == Err::<Address, StatusCode>(
                StatusCode::UnsupportedAddressForm,
            ),
    {
        if w.hi == 0 && w.mid_hi == 0 && w.mid_lo == 0 {
            Ok(Address::Id(w.lo))
        } else if w.hi == 0 && w.mid_hi < 0x1_0000_0000 {
            Ok(Address::Bytes(w))
        } else {
            Err(StatusCode::UnsupportedAddressForm)
        }
    }
}

} // verus!
