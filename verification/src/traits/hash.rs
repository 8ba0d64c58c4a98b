//! What the identifier kinds of a fixed size share.

use crate::traits::zero::all_zero;
use crate::traits::zero::Zero;
use crate::types::ident::Ident;
use vstd::prelude::*;

verus! {

/// Extensions for hash types: identifiers of exactly `SIZE` bytes.
pub trait HashExt<const SIZE: usize>: Sized {
    /// The bytes of the identifier.
    spec fn raw(&self) -> Seq<u8>;

    /// Returns the size of the hash type (in bytes).
    fn size() -> (size: usize)
        ensures
            size == SIZE,
    {
        SIZE
    }

    /// Returns the `zero` value of the hash type.
    fn zero() -> (value: Self)
        ensures
            value.raw().len() == SIZE,
            all_zero(value.raw()),
    ;

    /// Returns `true` if the hash type is `zero`.
    fn is_zero(&self) -> (is: bool)
        ensures
            is == all_zero(self.raw()),
    ;

    /// Creates a new hash type from a slice of bytes.
    fn import(bytes: &[u8]) -> (value: Self)
        requires
            bytes@.len() == SIZE,
        ensures
            value.raw() == bytes@,
    ;

    /// Exports the hash type as a slice of bytes.
    fn export(&self) -> (bytes: &[u8])
        ensures
            bytes@ == self.raw(),
            bytes@.len() == SIZE,
    ;
}

impl<const KIND: u8, const SIZE: usize> HashExt<SIZE> for Ident<KIND, SIZE> {
    open spec fn raw(&self) -> Seq<u8> {
        self@
    }

    fn zero() -> (value: Self) {
        let value = Ident::filled(0);
        assert(value.raw() == value@);
        value
    }

    fn is_zero(&self) -> (is: bool) {
        assert(self.raw() == self@);
        assert(self.zeroed() == all_zero(self@));
        Zero::is_zero(self)
    }

    fn import(bytes: &[u8]) -> (value: Self) {
        let value = Ident::from_bytes(bytes);
        assert(value.raw() == value@);
        value
    }

    fn export(&self) -> (bytes: &[u8]) {
        proof {
            self.lemma_len();
        }
        assert(self.raw() == self@);
        self.to_bytes()
    }
}

} // verus!
