//! Fixed-width integers as little-endian bytes.

use crate::traits::proxy::Proxy;
use crate::types::alias::ScBytes;
use crate::wire::le_bytes;
use crate::wire::le_value;
use crate::wire::lemma_le_bytes_len;
use crate::wire::lemma_le_value_bound;
use crate::wire::lemma_le_value_of_bytes;
use crate::wire::lemma_span_values;
use crate::wire::of_pattern;
use crate::wire::pattern_of;
use crate::wire::read_le;
use crate::wire::signed_in;
use crate::wire::span;
use crate::wire::twos;
use crate::wire::untwos;
use crate::wire::write_le;
use vstd::prelude::*;

verus! {

/// The number that a bit pattern of `width` bytes holds: itself where the
/// type is unsigned, its two's-complement reading where the type is signed.
pub open spec fn number_of(signed: bool, pattern: nat, width: nat) -> int {
    if signed {
        untwos(pattern, width)
    } else {
        pattern as int
    }
}

/// The number that `bytes` hold as a little-endian integer of `width` bytes,
/// or `None` where `bytes` does not have that width.
pub open spec fn decoded(signed: bool, width: nat, bytes: Seq<u8>) -> Option<int> {
    if bytes.len() == width {
        Some(number_of(signed, le_value(bytes), width))
    } else {
        None
    }
}

/// The little-endian bytes of `number` as an integer of `width` bytes.
pub open spec fn encoded(number: int, width: nat) -> Seq<u8> {
    le_bytes(twos(number, width), width)
}

/// A fixed-width integer that can be written as little-endian bytes and read
/// back from them.
pub trait Integer: Sized {
    /// The number of bytes of the type.
    spec fn width() -> nat;

    /// Whether the type holds negative numbers.
    spec fn signed() -> bool;

    /// The number that the value stands for.
    spec fn number(&self) -> int;

    /// Decodes a new integer from little-endian bytes. A slice of another
    /// length than the width of the type holds no integer.
    fn decode(slice: &[u8]) -> (value: Option<Self>)
        ensures
            match value {
                Some(value) => decoded(Self::signed(), Self::width(), slice@) == Some(value.number()),
                None => decoded(Self::signed(), Self::width(), slice@).is_none(),
            },
    ;

    /// Encodes an integer as little-endian bytes.
    fn encode(&self) -> (bytes: Vec<u8>)
        ensures
            bytes@ == encoded(self.number(), Self::width()),
    ;

    /// Decodes a new integer from a vector of little-endian bytes.
    fn decode_vec(data: Vec<u8>) -> (value: Option<Self>)
        ensures
            match value {
                Some(value) => decoded(Self::signed(), Self::width(), data@) == Some(value.number()),
                None => decoded(Self::signed(), Self::width(), data@).is_none(),
            },
    {
        Self::decode(data.as_slice())
    }

    /// Encodes an integer as a vector of little-endian bytes.
    fn encode_vec(&self) -> (bytes: Vec<u8>)
        ensures
            bytes@ == encoded(self.number(), Self::width()),
    {
        self.encode()
    }
}

impl Integer for u8 {
    open spec fn width() -> nat {
        1
    }

    open spec fn signed() -> bool {
        false
    }

    open spec fn number(&self) -> int {
        *self as int
    }

    fn decode(slice: &[u8]) -> (value: Option<Self>) {
        assert(Self::width() == 1 && Self::signed() == false);
        if slice.len() != 1 {
            None
        } else {
            proof {
                lemma_le_value_bound(slice@);
                lemma_span_values();
            }
            let number: u64 = read_le(slice);
            Some(number as u8)
        }
    }

    fn encode(&self) -> (bytes: Vec<u8>) {
        assert(Self::width() == 1 && Self::signed() == false);
        assert(self.number() == *self as int);
        write_le(*self as u64, 1)
    }
}

impl Integer for u16 {
    open spec fn width() -> nat {
        2
    }

    open spec fn signed() -> bool {
        false
    }

    open spec fn number(&self) -> int {
        *self as int
    }

    fn decode(slice: &[u8]) -> (value: Option<Self>) {
        assert(Self::width() == 2 && Self::signed() == false);
        if slice.len() != 2 {
            None
        } else {
            proof {
                lemma_le_value_bound(slice@);
                lemma_span_values();
            }
            let number: u64 = read_le(slice);
            Some(number as u16)
        }
    }

    fn encode(&self) -> (bytes: Vec<u8>) {
        assert(Self::width() == 2 && Self::signed() == false);
        assert(self.number() == *self as int);
        write_le(*self as u64, 2)
    }
}

impl Integer for u32 {
    open spec fn width() -> nat {
        4
    }

    open spec fn signed() -> bool {
        false
    }

    open spec fn number(&self) -> int {
        *self as int
    }

    fn decode(slice: &[u8]) -> (value: Option<Self>) {
        assert(Self::width() == 4 && Self::signed() == false);
        if slice.len() != 4 {
            None
        } else {
            proof {
                lemma_le_value_bound(slice@);
                lemma_span_values();
            }
            let number: u64 = read_le(slice);
            Some(number as u32)
        }
    }

    fn encode(&self) -> (bytes: Vec<u8>) {
        assert(Self::width() == 4 && Self::signed() == false);
        assert(self.number() == *self as int);
        write_le(*self as u64, 4)
    }
}

impl Integer for u64 {
    open spec fn width() -> nat {
        8
    }

    open spec fn signed() -> bool {
        false
    }

    open spec fn number(&self) -> int {
        *self as int
    }

    fn decode(slice: &[u8]) -> (value: Option<Self>) {
        assert(Self::width() == 8 && Self::signed() == false);
        if slice.len() != 8 {
            None
        } else {
            proof {
                lemma_le_value_bound(slice@);
                lemma_span_values();
            }
            let number: u64 = read_le(slice);
            Some(number)
        }
    }

    fn encode(&self) -> (bytes: Vec<u8>) {
        assert(Self::width() == 8 && Self::signed() == false);
        assert(self.number() == *self as int);
        write_le(*self, 8)
    }
}

impl Integer for i8 {
    open spec fn width() -> nat {
        1
    }

    open spec fn signed() -> bool {
        true
    }

    open spec fn number(&self) -> int {
        *self as int
    }

    fn decode(slice: &[u8]) -> (value: Option<Self>) {
        assert(Self::width() == 1 && Self::signed() == true);
        if slice.len() != 1 {
            None
        } else {
            proof {
                lemma_le_value_bound(slice@);
                lemma_span_values();
            }
            let number: i64 = of_pattern(read_le(slice), 1);
            Some(number as i8)
        }
    }

    fn encode(&self) -> (bytes: Vec<u8>) {
        assert(Self::width() == 1 && Self::signed() == true);
        assert(self.number() == *self as int);
        proof {
            lemma_span_values();
        }
        write_le(pattern_of(*self as i64, 1), 1)
    }
}

impl Integer for i16 {
    open spec fn width() -> nat {
        2
    }

    open spec fn signed() -> bool {
        true
    }

    open spec fn number(&self) -> int {
        *self as int
    }

    fn decode(slice: &[u8]) -> (value: Option<Self>) {
        assert(Self::width() == 2 && Self::signed() == true);
        if slice.len() != 2 {
            None
        } else {
            proof {
                lemma_le_value_bound(slice@);
                lemma_span_values();
            }
            let number: i64 = of_pattern(read_le(slice), 2);
            Some(number as i16)
        }
    }

    fn encode(&self) -> (bytes: Vec<u8>) {
        assert(Self::width() == 2 && Self::signed() == true);
        assert(self.number() == *self as int);
        proof {
            lemma_span_values();
        }
        write_le(pattern_of(*self as i64, 2), 2)
    }
}

impl Integer for i32 {
    open spec fn width() -> nat {
        4
    }

    open spec fn signed() -> bool {
        true
    }

    open spec fn number(&self) -> int {
        *self as int
    }

    fn decode(slice: &[u8]) -> (value: Option<Self>) {
        assert(Self::width() == 4 && Self::signed() == true);
        if slice.len() != 4 {
            None
        } else {
            proof {
                lemma_le_value_bound(slice@);
                lemma_span_values();
            }
            let number: i64 = of_pattern(read_le(slice), 4);
            Some(number as i32)
        }
    }

    fn encode(&self) -> (bytes: Vec<u8>) {
        assert(Self::width() == 4 && Self::signed() == true);
        assert(self.number() == *self as int);
        proof {
            lemma_span_values();
        }
        write_le(pattern_of(*self as i64, 4), 4)
    }
}

impl Integer for i64 {
    open spec fn width() -> nat {
        8
    }

    open spec fn signed() -> bool {
        true
    }

    open spec fn number(&self) -> int {
        *self as int
    }

    fn decode(slice: &[u8]) -> (value: Option<Self>) {
        assert(Self::width() == 8 && Self::signed() == true);
        if slice.len() != 8 {
            None
        } else {
            proof {
                lemma_le_value_bound(slice@);
                lemma_span_values();
            }
            let number: i64 = of_pattern(read_le(slice), 8);
            Some(number)
        }
    }

    fn encode(&self) -> (bytes: Vec<u8>) {
        assert(Self::width() == 8 && Self::signed() == true);
        assert(self.number() == *self as int);
        proof {
            lemma_span_values();
        }
        write_le(pattern_of(*self, 8), 8)
    }
}

/// An integer that was written is read back as it was.
pub proof fn lemma_integer_round_trip(signed: bool, width: nat, number: int)
    requires
        if signed {
            signed_in(number, width)
        } else {
            0 <= number < span(width)
        },
    ensures
        encoded(number, width).len() == width,
        decoded(signed, width, encoded(number, width)) == Some(number),
{
    lemma_le_bytes_len(twos(number, width), width);
    lemma_le_value_of_bytes(twos(number, width), width);
}

/// An interface for converting values to integers.
pub trait ToInteger {
    /// The bytes that the value holds, if it holds any.
    spec fn held_bytes(&self) -> Option<Seq<u8>>;

    /// Reads the bytes that the value holds as a little-endian integer. A
    /// value that holds nothing, or bytes of another length than the width
    /// of `I`, gives no integer.
    fn to_integer<I: Integer>(&self) -> (value: Option<I>)
        ensures
            match value {
                Some(value) => self.held_bytes().is_some() && decoded(
                    I::signed(),
                    I::width(),
                    self.held_bytes().unwrap(),
                ) == Some(value.number()),
                None => self.held_bytes().is_none() || decoded(
                    I::signed(),
                    I::width(),
                    self.held_bytes().unwrap(),
                ).is_none(),
            },
    ;
}

impl ToInteger for ScBytes {
    open spec fn held_bytes(&self) -> Option<Seq<u8>> {
        Some(self@)
    }

    fn to_integer<I: Integer>(&self) -> (value: Option<I>) {
        assert(self.held_bytes() == Some(self@));
        I::decode(self.as_slice())
    }
}

impl<T: Proxy<Value = ScBytes>> ToInteger for T {
    open spec fn held_bytes(&self) -> Option<Seq<u8>> {
        if self.present() {
            Some(self.held())
        } else {
            None
        }
    }

    fn to_integer<I: Integer>(&self) -> (value: Option<I>) {
        assert(self.held_bytes().is_some() == self.present());
        if self.has() {
            I::decode(self.get().as_slice())
        } else {
            None
        }
    }
}

} // verus!
