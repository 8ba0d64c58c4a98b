//! The zero of an identifier kind.

use crate::types::ident::Ident;
use vstd::prelude::*;

verus! {

/// Whether every byte of `bytes` is zero.
pub open spec fn all_zero(bytes: Seq<u8>) -> bool {
    forall|i: int| 0 <= i < bytes.len() ==> bytes[i] == 0
}

/// A kind of value that has a zero.
pub trait Zero: Sized {
    /// Whether the value is the zero of its kind.
    spec fn zeroed(&self) -> bool;

    /// Returns the `0` representation of `Self`.
    fn zero() -> (value: Self)
        ensures
            value.zeroed(),
    ;

    /// Returns `true` if the value is `0`.
    fn is_zero(&self) -> (is: bool)
        ensures
            is == self.zeroed(),
    ;
}

impl<const KIND: u8, const SIZE: usize> Zero for Ident<KIND, SIZE> {
    open spec fn zeroed(&self) -> bool {
        all_zero(self@)
    }

    fn zero() -> (value: Self) {
        let value = Ident::filled(0);
        assert(value.zeroed() == all_zero(value@));
        value
    }

    fn is_zero(&self) -> (is: bool) {
        assert(self.zeroed() == all_zero(self@));
        let bytes: &[u8] = self.to_bytes();
        let mut index: usize = 0;
        while index < bytes.len()
            invariant
                index <= bytes@.len(),
                bytes@ == self@,
                forall|i: int| 0 <= i < index ==> bytes@[i] == 0,
            decreases bytes@.len() - index,
        {
            if bytes[index] != 0 {
                return false;
            }
            index = index + 1;
        }
        true
    }
}

} // verus!
