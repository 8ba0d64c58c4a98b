//! Fixed-size identifiers: addresses, agent ids, chain ids, colors, hashes,
//! hash names and request ids.

use vstd::array::array_fill_for_copy_types;
use vstd::prelude::*;

verus! {

/// An identifier of exactly `SIZE` raw bytes. `KIND` tells identifiers of
/// equal size apart, so that a color is never taken for a hash.
#[derive(Clone, Copy, Debug, PartialEq, Eq, Hash)]
pub struct Ident<const KIND: u8, const SIZE: usize> {
    bytes: [u8; SIZE],
}

/// A smart contract address.
pub type ScAddress = Ident<1, 33>;

/// A smart contract agent id.
pub type ScAgentId = Ident<2, 37>;

/// A smart contract chain id.
pub type ScChainId = Ident<4, 33>;

/// A smart contract color.
pub type ScColor = Ident<5, 32>;

/// A smart contract hash.
pub type ScHash = Ident<6, 32>;

/// A smart contract hash name.
pub type ScHname = Ident<7, 4>;

/// A smart contract request id.
pub type ScRequestId = Ident<10, 34>;

impl<const KIND: u8, const SIZE: usize> View for Ident<KIND, SIZE> {
    type V = Seq<u8>;

    closed spec fn view(&self) -> Seq<u8> {
        self.bytes@
    }
}

impl<const KIND: u8, const SIZE: usize> Ident<KIND, SIZE> {
    /// An identifier always has `SIZE` bytes.
    pub broadcast proof fn lemma_len(self)
        ensures
            #[trigger] self@.len() == SIZE,
    {
    }

    /// Creates the identifier whose bytes are all `byte`.
    pub fn filled(byte: u8) -> (ident: Self)
        ensures
            ident@.len() == SIZE,
            forall|i: int| 0 <= i < SIZE ==> ident@[i] == byte,
    {
        Ident { bytes: array_fill_for_copy_types(byte) }
    }

    /// Creates the identifier that holds `bytes`.
    pub fn from_bytes(bytes: &[u8]) -> (ident: Self)
        requires
            bytes@.len() == SIZE,
        ensures
            ident@ == bytes@,
    {
        let mut held: [u8; SIZE] = array_fill_for_copy_types(0u8);
        let mut index: usize = 0;
        while index < SIZE
            invariant
                index <= SIZE,
                bytes@.len() == SIZE,
                forall|i: int| 0 <= i < index ==> held@[i] == bytes@[i],
            decreases SIZE - index,
        {
            held[index] = bytes[index];
            index = index + 1;
        }
        assert(held@ =~= bytes@);
        Ident { bytes: held }
    }

    /// Tells whether two identifiers hold the same bytes.
    pub fn same(&self, other: &Self) -> (same: bool)
        ensures
            same == (self@ == other@),
    {
        let mut index: usize = 0;
        while index < SIZE
            invariant
                index <= SIZE,
                self@.len() == SIZE,
                other@.len() == SIZE,
                forall|i: int| 0 <= i < index ==> self@[i] == other@[i],
            decreases SIZE - index,
        {
            if self.bytes[index] != other.bytes[index] {
                return false;
            }
            index = index + 1;
        }
        assert(self@ =~= other@);
        true
    }

    /// Returns the bytes of the identifier.
    pub fn to_bytes(&self) -> (bytes: &[u8])
        ensures
            bytes@ == self@,
    {
        self.bytes.as_slice()
    }
}

} // verus!
