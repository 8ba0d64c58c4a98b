//! Little-endian integers as byte sequences: the arithmetic that every
//! fixed-width layout of the codec rests on.

use vstd::prelude::*;

verus! {

/// The number of values that `width` bytes can tell apart: 256 to the power
/// of `width`.
pub open spec fn span(width: nat) -> nat
    decreases width,
{
    if width == 0 {
        1
    } else {
        256 * span((width - 1) as nat)
    }
}

/// The `width` lowest base-256 digits of `value`, least significant first.
pub open spec fn le_bytes(value: nat, width: nat) -> Seq<u8>
    decreases width,
{
    if width == 0 {
        Seq::<u8>::empty()
    } else {
        seq![(value % 256) as u8] + le_bytes(value / 256, (width - 1) as nat)
    }
}

/// The number whose base-256 digits, least significant first, are `bytes`.
pub open spec fn le_value(bytes: Seq<u8>) -> nat
    decreases bytes.len(),
{
    if bytes.len() == 0 {
        0
    } else {
        bytes[0] as nat + 256 * le_value(bytes.drop_first())
    }
}

/// A little-endian integer has exactly as many bytes as its width.
pub proof fn lemma_le_bytes_len(value: nat, width: nat)
    ensures
        le_bytes(value, width).len() == width,
    decreases width,
{
    if width > 0 {
        lemma_le_bytes_len(value / 256, (width - 1) as nat);
    }
}

/// The spans of the widths in use.
pub proof fn lemma_span_values()
    ensures
        span(0) == 1,
        span(1) == 0x100,
        span(2) == 0x1_0000,
        span(4) == 0x1_0000_0000,
        span(8) == 0x1_0000_0000_0000_0000,
{
    reveal_with_fuel(span, 9);
}

/// The span grows with the width.
pub proof fn lemma_span_monotonic(narrow: nat, wide: nat)
    requires
        narrow <= wide,
    ensures
        0 < span(narrow) <= span(wide),
    decreases wide,
{
    if wide == 0 {
    } else if narrow == wide {
        lemma_span_monotonic((narrow - 1) as nat, (wide - 1) as nat);
    } else {
        lemma_span_monotonic(narrow, (wide - 1) as nat);
    }
}

/// What a byte sequence stands for is below the span of its length.
pub proof fn lemma_le_value_bound(bytes: Seq<u8>)
    ensures
        le_value(bytes) < span(bytes.len()),
    decreases bytes.len(),
{
    if bytes.len() > 0 {
        lemma_le_value_bound(bytes.drop_first());
    }
}

/// Reading back the digits of a number that fits the width gives the number.
pub proof fn lemma_le_value_of_bytes(value: nat, width: nat)
    requires
        value < span(width),
    ensures
        le_value(le_bytes(value, width)) == value,
    decreases width,
{
    if width > 0 {
        let rest = le_bytes(value / 256, (width - 1) as nat);
        let all = le_bytes(value, width);
        lemma_le_value_of_bytes(value / 256, (width - 1) as nat);
        assert(all.drop_first() =~= rest);
        assert(all[0] == (value % 256) as u8);
    }
}

/// Writing out what a byte sequence stands for gives the sequence back.
pub proof fn lemma_le_bytes_of_value(bytes: Seq<u8>)
    ensures
        le_bytes(le_value(bytes), bytes.len()) == bytes,
    decreases bytes.len(),
{
    if bytes.len() > 0 {
        let tail = bytes.drop_first();
        lemma_le_bytes_of_value(tail);
        let value = le_value(bytes);
        assert(value % 256 == bytes[0] as nat);
        assert(value / 256 == le_value(tail));
        assert(le_bytes(value, bytes.len()) =~= bytes);
    } else {
        assert(le_bytes(le_value(bytes), bytes.len()) =~= bytes);
    }
}

/// The unsigned number that holds the two's-complement bit pattern of
/// `value` in `width` bytes.
pub open spec fn twos(value: int, width: nat) -> nat {
    if value >= 0 {
        value as nat
    } else {
        (value + span(width)) as nat
    }
}

/// The signed number whose two's-complement bit pattern in `width` bytes is
/// `pattern`.
pub open spec fn untwos(pattern: nat, width: nat) -> int {
    if 2 * pattern < span(width) {
        pattern as int
    } else {
        pattern - span(width)
    }
}

/// Whether `value` is a signed number of `width` bytes.
pub open spec fn signed_in(value: int, width: nat) -> bool {
    -(span(width) as int) <= 2 * value < span(width)
}

/// A signed number and its bit pattern stand for each other.
pub proof fn lemma_twos_round_trip(value: int, width: nat)
    requires
        signed_in(value, width),
    ensures
        twos(value, width) < span(width),
        untwos(twos(value, width), width) == value,
{
}

/// A bit pattern and the signed number that it holds stand for each other.
pub proof fn lemma_untwos_round_trip(pattern: nat, width: nat)
    requires
        pattern < span(width),
    ensures
        signed_in(untwos(pattern, width), width),
        twos(untwos(pattern, width), width) == pattern,
{
}

/// The unsigned number that holds the bits of a 64-bit integer.
pub open spec fn int64_pattern(value: i64) -> nat {
    twos(value as int, 8)
}

/// The 64-bit integer whose bits `pattern` holds.
pub open spec fn int64_of_pattern(pattern: nat) -> i64 {
    untwos(pattern, 8) as i64
}

/// The layout of a 64-bit integer: eight bytes, two's complement, least
/// significant byte first.
pub open spec fn int64_wire(value: i64) -> Seq<u8> {
    le_bytes(int64_pattern(value), 8)
}

/// The layout of a byte string: its length as four little-endian bytes, then
/// the bytes themselves.
pub open spec fn prefixed(payload: Seq<u8>) -> Seq<u8> {
    le_bytes(payload.len(), 4) + payload
}

/// The length that the four-byte prefix at the front of `bytes` announces.
pub open spec fn announced(bytes: Seq<u8>) -> nat {
    le_value(bytes.take(4))
}

/// Whether `bytes` starts with a complete length-prefixed byte string.
pub open spec fn holds_prefixed(bytes: Seq<u8>) -> bool {
    bytes.len() >= 4 && bytes.len() - 4 >= announced(bytes)
}

/// The payload of the length-prefixed byte string at the front of `bytes`.
pub open spec fn payload(bytes: Seq<u8>) -> Seq<u8> {
    bytes.subrange(4, 4 + announced(bytes) as int)
}

/// A length-prefixed byte string is read back as it was written, whatever
/// follows it.
pub proof fn lemma_prefixed_round_trip(data: Seq<u8>, rest: Seq<u8>)
    requires
        data.len() < span(4),
    ensures
        holds_prefixed(prefixed(data) + rest),
        announced(prefixed(data) + rest) == data.len(),
        payload(prefixed(data) + rest) == data,
        prefixed(data).len() == 4 + data.len(),
{
    let head = le_bytes(data.len(), 4);
    let all = prefixed(data) + rest;
    lemma_le_bytes_len(data.len(), 4);
    lemma_le_value_of_bytes(data.len(), 4);
    assert(all.take(4) =~= head);
    assert(all.subrange(4, 4 + data.len() as int) =~= data);
}

/// A 64-bit integer is read back as it was written, whatever follows it.
pub proof fn lemma_int64_round_trip(value: i64, rest: Seq<u8>)
    ensures
        int64_wire(value).len() == 8,
        int64_of_pattern(le_value((int64_wire(value) + rest).take(8))) == value,
{
    lemma_span_values();
    lemma_twos_round_trip(value as int, 8);
    lemma_le_bytes_len(int64_pattern(value), 8);
    lemma_le_value_of_bytes(int64_pattern(value), 8);
    assert((int64_wire(value) + rest).take(8) =~= int64_wire(value));
}

/// Turns a signed number of `width` bytes into the unsigned number with the
/// same bits.
pub fn pattern_of(value: i64, width: usize) -> (pattern: u64)
    requires
        width == 1 || width == 2 || width == 4 || width == 8,
        signed_in(value as int, width as nat),
    ensures
        pattern as nat == twos(value as int, width as nat),
        pattern < span(width as nat),
{
    proof {
        lemma_span_values();
    }
    if value >= 0 {
        value as u64
    } else {
        let half: u64 = if width == 1 {
            0x80
        } else if width == 2 {
            0x8000
        } else if width == 4 {
            0x8000_0000
        } else {
            0x8000_0000_0000_0000
        };
        let below: i64 = (half - 1) as i64;
        let low: u64 = (value + below + 1) as u64;
        low + half
    }
}

/// Turns an unsigned number of `width` bytes into the signed number with the
/// same bits.
pub fn of_pattern(pattern: u64, width: usize) -> (value: i64)
    requires
        width == 1 || width == 2 || width == 4 || width == 8,
        pattern < span(width as nat),
    ensures
        value as int == untwos(pattern as nat, width as nat),
        signed_in(value as int, width as nat),
{
    proof {
        lemma_span_values();
    }
    let half: u64 = if width == 1 {
        0x80
    } else if width == 2 {
        0x8000
    } else if width == 4 {
        0x8000_0000
    } else {
        0x8000_0000_0000_0000
    };
    if pattern < half {
        pattern as i64
    } else {
        let low: i64 = (pattern - half) as i64;
        let below: i64 = (half - 1) as i64;
        low - below - 1
    }
}

/// Writes the `width` lowest bytes of `value`, least significant first.
pub fn write_le(value: u64, width: usize) -> (bytes: Vec<u8>)
    requires
        width <= 8,
    ensures
        bytes@ == le_bytes(value as nat, width as nat),
{
    let mut bytes: Vec<u8> = Vec::new();
    let mut rest: u64 = value;
    let mut done: usize = 0;
    while done < width
        invariant
            done <= width <= 8,
            bytes@.len() == done,
            bytes@ + le_bytes(rest as nat, (width - done) as nat) == le_bytes(
                value as nat,
                width as nat,
            ),
        decreases width - done,
    {
        let ghost before = bytes@;
        let digit: u8 = (rest % 256) as u8;
        bytes.push(digit);
        proof {
            let tail = le_bytes((rest / 256) as nat, (width - done - 1) as nat);
            assert(le_bytes(rest as nat, (width - done) as nat) == seq![digit] + tail);
            assert(bytes@ + tail =~= before + (seq![digit] + tail));
        }
        rest = rest / 256;
        done = done + 1;
    }
    proof {
        assert(bytes@ + Seq::<u8>::empty() =~= bytes@);
    }
    bytes
}

/// Reads a little-endian integer of at most eight bytes.
pub fn read_le(bytes: &[u8]) -> (value: u64)
    requires
        bytes@.len() <= 8,
    ensures
        value as nat == le_value(bytes@),
{
    let mut value: u64 = 0;
    let mut left: usize = bytes.len();
    proof {
        assert(bytes@.skip(left as int) =~= Seq::<u8>::empty());
    }
    while left > 0
        invariant
            left <= bytes@.len() <= 8,
            value as nat == le_value(bytes@.skip(left as int)),
        decreases left,
    {
        left = left - 1;
        let digit: u8 = bytes[left];
        proof {
            let tail = bytes@.skip(left as int + 1);
            let here = bytes@.skip(left as int);
            assert(here.drop_first() =~= tail);
            assert(here[0] == digit);
            lemma_le_value_bound(tail);
            lemma_span_monotonic(tail.len(), 7);
            lemma_span_values();
            reveal_with_fuel(span, 8);
        }
        value = value * 256 + digit as u64;
    }
    proof {
        assert(bytes@.skip(0) =~= bytes@);
    }
    value
}

} // verus!
