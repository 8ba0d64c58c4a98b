//! Unsigned integers from the bytes that a proxy holds.

use crate::traits::proxy::Proxy;
use crate::types::alias::ScBytes;
use crate::wire::le_value;
use crate::wire::lemma_le_value_bound;
use crate::wire::lemma_span_values;
use crate::wire::read_le;
use vstd::prelude::*;

verus! {

/// The unsigned number that `data` holds as little-endian bytes, or `None`
/// where `data` does not have `width` bytes.
pub open spec fn parsed(width: nat, data: Seq<u8>) -> Option<nat> {
    if data.len() == width {
        Some(le_value(data))
    } else {
        None
    }
}

/// Reads the bytes of a proxy as an unsigned little-endian integer.
pub trait ToUint<UInt>: Proxy<Value = ScBytes> {
    /// The number of bytes of `UInt`.
    spec fn width() -> nat;

    /// The number that a value of `UInt` stands for.
    spec fn number(value: UInt) -> nat;

    /// Returns the integer that the proxy holds: `None` where it holds
    /// nothing, or bytes of another length than the width of `UInt`.
    fn to_uint(&self) -> (value: Option<UInt>)
        ensures
            match value {
                Some(value) => self.present() && parsed(Self::width(), self.held()) == Some(
                    Self::number(value),
                ),
                None => !self.present() || parsed(Self::width(), self.held()).is_none(),
            },
    {
        if self.has() {
            Self::parse(self.get())
        } else {
            None
        }
    }

    /// Reads `data` as a little-endian integer: `None` where it has another
    /// length than the width of `UInt`.
    fn parse(data: Vec<u8>) -> (value: Option<UInt>)
        ensures
            match value {
                Some(value) => parsed(Self::width(), data@) == Some(Self::number(value)),
                None => parsed(Self::width(), data@).is_none(),
            },
    ;
}

impl<T: Proxy<Value = ScBytes>> ToUint<u16> for T {
    open spec fn width() -> nat {
        2
    }

    open spec fn number(value: u16) -> nat {
        value as nat
    }

    fn parse(data: Vec<u8>) -> (value: Option<u16>) {
        assert(<T as ToUint<u16>>::width() == 2);
        if data.len() != 2 {
            None
        } else {
            proof {
                lemma_le_value_bound(data@);
                lemma_span_values();
            }
            Some(read_le(data.as_slice()) as u16)
        }
    }
}

impl<T: Proxy<Value = ScBytes>> ToUint<u32> for T {
    open spec fn width() -> nat {
        4
    }

    open spec fn number(value: u32) -> nat {
        value as nat
    }

    fn parse(data: Vec<u8>) -> (value: Option<u32>) {
        assert(<T as ToUint<u32>>::width() == 4);
        if data.len() != 4 {
            None
        } else {
            proof {
                lemma_le_value_bound(data@);
                lemma_span_values();
            }
            Some(read_le(data.as_slice()) as u32)
        }
    }
}

impl<T: Proxy<Value = ScBytes>> ToUint<u64> for T {
    open spec fn width() -> nat {
        8
    }

    open spec fn number(value: u64) -> nat {
        value as nat
    }

    fn parse(data: Vec<u8>) -> (value: Option<u64>) {
        assert(<T as ToUint<u64>>::width() == 8);
        if data.len() != 8 {
            None
        } else {
            Some(read_le(data.as_slice()))
        }
    }
}

} // verus!
