//! The two standard token colors.

use crate::types::ident::ScColor;
use vstd::prelude::*;

verus! {

/// Whether every byte of `bytes` is `byte`.
pub open spec fn all_bytes(bytes: Seq<u8>, byte: u8) -> bool {
    forall|i: int| 0 <= i < bytes.len() ==> bytes[i] == byte
}

/// Extensions for token colors.
pub trait ColorExt: Sized {
    /// The bytes of the color.
    spec fn color_bytes(&self) -> Seq<u8>;

    /// Returns `true` if the token color is the color of the base token:
    /// every byte is `0x00`.
    fn is_iota(&self) -> (is: bool)
        ensures
            is == all_bytes(self.color_bytes(), 0x00),
    ;

    /// Returns `true` if the token color is the color that asks for new
    /// tokens to be minted: every byte is `0xff`.
    fn is_mint(&self) -> (is: bool)
        ensures
            is == all_bytes(self.color_bytes(), 0xff),
    ;

    /// Returns `true` if the token color is non-standard.
    fn is_custom(&self) -> (is: bool)
        ensures
            is == (!all_bytes(self.color_bytes(), 0x00) && !all_bytes(self.color_bytes(), 0xff)),
    {
        !self.is_iota() && !self.is_mint()
    }

    /// Returns the human-friendly name of a standard token color; a
    /// non-standard color has none.
    fn name(&self) -> (name: Option<&'static str>)
        ensures
            match name {
                Some(name) => if all_bytes(self.color_bytes(), 0x00) {
                    name@ == "IOTA"@
                } else {
                    all_bytes(self.color_bytes(), 0xff) && name@ == "MINT"@
                },
                None => !all_bytes(self.color_bytes(), 0x00) && !all_bytes(
                    self.color_bytes(),
                    0xff,
                ),
            },
    {
        if self.is_iota() {
            Some("IOTA")
        } else if self.is_mint() {
            Some("MINT")
        } else {
            None
        }
    }
}

/// Tells whether every byte of `bytes` is `byte`.
fn filled_with(bytes: &[u8], byte: u8) -> (is: bool)
    ensures
        is == all_bytes(bytes@, byte),
{
    let mut index: usize = 0;
    while index < bytes.len()
        invariant
            index <= bytes@.len(),
            forall|i: int| 0 <= i < index ==> bytes@[i] == byte,
        decreases bytes@.len() - index,
    {
        if bytes[index] != byte {
            return false;
        }
        index = index + 1;
    }
    true
}

impl ColorExt for ScColor {
    open spec fn color_bytes(&self) -> Seq<u8> {
        self@
    }

    fn is_iota(&self) -> (is: bool) {
        assert(self.color_bytes() == self@);
        filled_with(self.to_bytes(), 0x00)
    }

    fn is_mint(&self) -> (is: bool) {
        assert(self.color_bytes() == self@);
        filled_with(self.to_bytes(), 0xff)
    }
}

} // verus!
