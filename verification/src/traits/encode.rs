//! The `Encode` / `Decode` capability pair and its bindings for the
//! primitive kinds.

use crate::decoder::Decoder;
use crate::encoder::Encoder;
use crate::text::text_from;
use crate::text::text_of;
use crate::types::ident::Ident;
use crate::wire::announced;
use crate::wire::holds_prefixed;
use crate::wire::int64_of_pattern;
use crate::wire::int64_wire;
use crate::wire::le_value;
use crate::wire::lemma_int64_round_trip;
use crate::wire::lemma_le_value_bound;
use crate::wire::lemma_prefixed_round_trip;
use crate::wire::lemma_span_values;
use crate::wire::of_pattern;
use crate::wire::pattern_of;
use crate::wire::payload;
use crate::wire::prefixed;
use crate::wire::read_le;
use crate::wire::write_le;
use vstd::prelude::*;
use vstd::slice::slice_to_vec;
use vstd::utf8::encode_utf8;
use vstd::utf8::encode_utf8_decode_utf8;
use vstd::utf8::encode_utf8_valid_utf8;

verus! {

/// A value with a canonical byte layout.
pub trait Encode {
    /// The canonical bytes of the value.
    spec fn wire(&self) -> Seq<u8>;

    /// Whether the value can be written: a length has to fit its prefix.
    spec fn fits(&self) -> bool;

    /// Appends the canonical bytes of the value to `encoder`.
    fn encode(&self, encoder: &mut Encoder)
        requires
            self.fits(),
        ensures
            final(encoder)@ == old(encoder)@ + self.wire(),
    ;

    /// Returns the canonical bytes of the value.
    fn to_bytes(&self) -> (bytes: Vec<u8>)
        requires
            self.fits(),
        ensures
            bytes@ == self.wire(),
    {
        let mut encoder: Encoder = Encoder::new();
        self.encode(&mut encoder);
        assert(Seq::<u8>::empty() + self.wire() =~= self.wire());
        encoder.data()
    }
}

impl<'a, T: Encode> Encode for &'a T {
    open spec fn wire(&self) -> Seq<u8> {
        (**self).wire()
    }

    open spec fn fits(&self) -> bool {
        (**self).fits()
    }

    fn encode(&self, encoder: &mut Encoder) {
        assert(self.fits() == (**self).fits());
        (**self).encode(encoder);
        assert(self.wire() == (**self).wire());
    }
}

/// A value that can be read from its canonical byte layout.
pub trait Decode: Sized + View {
    /// What stands at the front of `bytes`: the value and the number of bytes
    /// that it spans, or `None` where `bytes` ends before the value does.
    spec fn parse(bytes: Seq<u8>) -> Option<(Self::V, nat)>;

    /// Tells whether a whole value stands at the decoder's position.
    fn complete(decoder: &Decoder<'_>) -> (whole: bool)
        ensures
            whole == Self::parse(decoder.remaining()).is_some(),
    ;

    /// Reads the value at the decoder's position and moves past it.
    fn decode(decoder: &mut Decoder<'_>) -> (value: Self)
        requires
            Self::parse(old(decoder).remaining()).is_some(),
        ensures
            Self::parse(old(decoder).remaining()) == Some(
                (value@, (final(decoder).position() - old(decoder).position()) as nat),
            ),
            final(decoder).position() >= old(decoder).position(),
            final(decoder).source() == old(decoder).source(),
            final(decoder).remaining() == old(decoder).remaining().skip(
                final(decoder).position() - old(decoder).position(),
            ),
    ;

    /// Reads the value that stands at the front of `bytes`.
    fn from_bytes(bytes: &[u8]) -> (value: Self)
        requires
            Self::parse(bytes@).is_some(),
        ensures
            value@ == Self::parse(bytes@).unwrap().0,
    {
        let mut decoder: Decoder<'_> = Decoder::new(bytes);
        Self::decode(&mut decoder)
    }
}

impl Encode for i64 {
    open spec fn wire(&self) -> Seq<u8> {
        int64_wire(*self)
    }

    open spec fn fits(&self) -> bool {
        true
    }

    fn encode(&self, encoder: &mut Encoder) {
        proof {
            lemma_span_values();
        }
        let bytes: Vec<u8> = write_le(pattern_of(*self, 8), 8);
        encoder.raw(bytes.as_slice());
        assert(self.wire() == int64_wire(*self));
    }
}

/// What stands at the front of `bytes` when read as a 64-bit integer.
pub open spec fn parse_int64(bytes: Seq<u8>) -> Option<(i64, nat)> {
    if bytes.len() >= 8 {
        Some((int64_of_pattern(le_value(bytes.take(8))), 8nat))
    } else {
        None
    }
}

/// What stands at the front of `bytes` when read as a length-prefixed byte
/// string.
pub open spec fn parse_bytes(bytes: Seq<u8>) -> Option<(Seq<u8>, nat)> {
    if holds_prefixed(bytes) {
        Some((payload(bytes), 4 + announced(bytes)))
    } else {
        None
    }
}

/// What stands at the front of `bytes` when read as a length-prefixed
/// string.
pub open spec fn parse_text(bytes: Seq<u8>) -> Option<(Seq<char>, nat)> {
    if holds_prefixed(bytes) {
        Some((text_of(payload(bytes)), 4 + announced(bytes)))
    } else {
        None
    }
}

/// What stands at the front of `bytes` when read as an identifier of `size`
/// bytes.
pub open spec fn parse_ident(size: nat, bytes: Seq<u8>) -> Option<(Seq<u8>, nat)> {
    if bytes.len() >= size {
        Some((bytes.take(size as int), size))
    } else {
        None
    }
}

impl Decode for i64 {
    open spec fn parse(bytes: Seq<u8>) -> Option<(i64, nat)> {
        parse_int64(bytes)
    }

    fn complete(decoder: &Decoder<'_>) -> (whole: bool) {
        assert(Self::parse(decoder.remaining()) == parse_int64(decoder.remaining()));
        decoder.left() >= 8
    }

    fn decode(decoder: &mut Decoder<'_>) -> (value: i64) {
        assert(Self::parse(decoder.remaining()) == parse_int64(decoder.remaining()));
        let bytes: &[u8] = decoder.take(8);
        proof {
            lemma_le_value_bound(bytes@);
        }
        of_pattern(read_le(bytes), 8)
    }
}

/// Appends `data` behind its length, written as four little-endian bytes.
fn encode_prefixed(data: &[u8], encoder: &mut Encoder)
    requires
        data@.len() <= u32::MAX,
    ensures
        final(encoder)@ == old(encoder)@ + prefixed(data@),
{
    let length: usize = data.len();
    let head: Vec<u8> = write_le(length as u64, 4);
    encoder.raw(head.as_slice());
    encoder.raw(data);
    assert(encoder@ =~= old(encoder)@ + prefixed(data@));
}

/// Tells whether a whole length-prefixed byte string stands at the decoder's
/// position.
fn complete_prefixed(decoder: &Decoder<'_>) -> (whole: bool)
    ensures
        whole == holds_prefixed(decoder.remaining()),
{
    let left: usize = decoder.left();
    if left < 4 {
        false
    } else {
        let head: &[u8] = decoder.peek(4);
        let length: u64 = read_le(head);
        (left - 4) as u64 >= length
    }
}

/// Reads the payload of the length-prefixed byte string at the decoder's
/// position and moves past it.
fn decode_prefixed<'a>(decoder: &mut Decoder<'a>) -> (data: &'a [u8])
    requires
        holds_prefixed(old(decoder).remaining()),
    ensures
        data@ == payload(old(decoder).remaining()),
        final(decoder).position() == old(decoder).position() + 4 + announced(
            old(decoder).remaining(),
        ),
        final(decoder).source() == old(decoder).source(),
        final(decoder).remaining() == old(decoder).remaining().skip(
            4 + announced(old(decoder).remaining()) as int,
        ),
{
    let ghost before = decoder.remaining();
    let left: usize = decoder.left();
    let head: &[u8] = decoder.take(4);
    let length: u64 = read_le(head);
    assert(length <= left - 4);
    let data: &[u8] = decoder.take(length as usize);
    assert(data@ =~= payload(before));
    assert(decoder.remaining() =~= before.skip(4 + announced(before) as int));
    data
}

impl Encode for [u8] {
    open spec fn wire(&self) -> Seq<u8> {
        prefixed(self@)
    }

    open spec fn fits(&self) -> bool {
        self@.len() <= u32::MAX
    }

    fn encode(&self, encoder: &mut Encoder) {
        assert(self.fits() == (self@.len() <= u32::MAX));
        encode_prefixed(self, encoder);
        assert(self.wire() == prefixed(self@));
    }
}

impl Encode for Vec<u8> {
    open spec fn wire(&self) -> Seq<u8> {
        prefixed(self@)
    }

    open spec fn fits(&self) -> bool {
        self@.len() <= u32::MAX
    }

    fn encode(&self, encoder: &mut Encoder) {
        assert(self.fits() == (self@.len() <= u32::MAX));
        encode_prefixed(self.as_slice(), encoder);
        assert(self.wire() == prefixed(self@));
    }
}

impl Decode for Vec<u8> {
    open spec fn parse(bytes: Seq<u8>) -> Option<(Seq<u8>, nat)> {
        parse_bytes(bytes)
    }

    fn complete(decoder: &Decoder<'_>) -> (whole: bool) {
        assert(Self::parse(decoder.remaining()) == parse_bytes(decoder.remaining()));
        complete_prefixed(decoder)
    }

    fn decode(decoder: &mut Decoder<'_>) -> (value: Vec<u8>) {
        assert(Self::parse(decoder.remaining()) == parse_bytes(decoder.remaining()));
        slice_to_vec(decode_prefixed(decoder))
    }
}

impl Encode for str {
    open spec fn wire(&self) -> Seq<u8> {
        prefixed(encode_utf8(self@))
    }

    open spec fn fits(&self) -> bool {
        encode_utf8(self@).len() <= u32::MAX
    }

    fn encode(&self, encoder: &mut Encoder) {
        assert(self.fits() == (encode_utf8(self@).len() <= u32::MAX));
        encode_prefixed(self.as_bytes(), encoder);
        assert(self.wire() == prefixed(encode_utf8(self@)));
    }
}

impl Encode for String {
    open spec fn wire(&self) -> Seq<u8> {
        prefixed(encode_utf8(self@))
    }

    open spec fn fits(&self) -> bool {
        encode_utf8(self@).len() <= u32::MAX
    }

    fn encode(&self, encoder: &mut Encoder) {
        assert(self.fits() == (encode_utf8(self@).len() <= u32::MAX));
        encode_prefixed(self.as_str().as_bytes(), encoder);
        assert(self.wire() == prefixed(encode_utf8(self@)));
    }
}

impl Decode for String {
    open spec fn parse(bytes: Seq<u8>) -> Option<(Seq<char>, nat)> {
        parse_text(bytes)
    }

    fn complete(decoder: &Decoder<'_>) -> (whole: bool) {
        assert(Self::parse(decoder.remaining()) == parse_text(decoder.remaining()));
        complete_prefixed(decoder)
    }

    fn decode(decoder: &mut Decoder<'_>) -> (value: String) {
        assert(Self::parse(decoder.remaining()) == parse_text(decoder.remaining()));
        text_from(decode_prefixed(decoder))
    }
}

impl<const KIND: u8, const SIZE: usize> Encode for Ident<KIND, SIZE> {
    open spec fn wire(&self) -> Seq<u8> {
        self@
    }

    open spec fn fits(&self) -> bool {
        true
    }

    fn encode(&self, encoder: &mut Encoder) {
        encoder.raw(self.to_bytes());
        assert(self.wire() == self@);
    }
}

impl<const KIND: u8, const SIZE: usize> Decode for Ident<KIND, SIZE> {
    open spec fn parse(bytes: Seq<u8>) -> Option<(Seq<u8>, nat)> {
        parse_ident(SIZE as nat, bytes)
    }

    fn complete(decoder: &Decoder<'_>) -> (whole: bool) {
        assert(Self::parse(decoder.remaining()) == parse_ident(SIZE as nat, decoder.remaining()));
        decoder.left() >= SIZE
    }

    fn decode(decoder: &mut Decoder<'_>) -> (value: Self) {
        assert(Self::parse(decoder.remaining()) == parse_ident(SIZE as nat, decoder.remaining()));
        Ident::from_bytes(decoder.take(SIZE))
    }
}

/// An integer that was written is read back as it was, whatever follows it.
pub proof fn lemma_int64_decodes(value: i64, rest: Seq<u8>)
    ensures
        <i64 as Decode>::parse(value.wire() + rest) == Some((value, value.wire().len())),
{
    lemma_int64_round_trip(value, rest);
}

/// A byte vector that was written is read back as it was, whatever follows
/// it.
pub proof fn lemma_bytes_decodes(value: Vec<u8>, rest: Seq<u8>)
    requires
        value.fits(),
    ensures
        <Vec<u8> as Decode>::parse(value.wire() + rest) == Some((value@, value.wire().len())),
{
    lemma_span_values();
    lemma_prefixed_round_trip(value@, rest);
}

/// A string that was written is read back as it was, whatever follows it.
pub proof fn lemma_string_decodes(value: String, rest: Seq<u8>)
    requires
        value.fits(),
    ensures
        <String as Decode>::parse(value.wire() + rest) == Some((value@, value.wire().len())),
{
    lemma_span_values();
    lemma_prefixed_round_trip(encode_utf8(value@), rest);
    encode_utf8_valid_utf8(value@);
    encode_utf8_decode_utf8(value@);
}

/// An identifier that was written is read back as it was, whatever follows
/// it.
pub proof fn lemma_ident_decodes<const KIND: u8, const SIZE: usize>(
    value: Ident<KIND, SIZE>,
    rest: Seq<u8>,
)
    ensures
        <Ident<KIND, SIZE> as Decode>::parse(value.wire() + rest) == Some(
            (value@, value.wire().len()),
        ),
{
    value.lemma_len();
    assert((value@ + rest).take(SIZE as int) =~= value@);
}

} // verus!
