//! A value of any primitive kind, held together with its kind.

use crate::decoder::Decoder;
use crate::encoder::Encoder;
use crate::text::text_of;
use crate::traits::encode::Decode;
use crate::traits::encode::Encode;
use crate::types::alias::ScBytes;
use crate::types::alias::ScInt64;
use crate::types::alias::ScString;
use crate::types::ident::ScAddress;
use crate::types::ident::ScAgentId;
use crate::types::ident::ScChainId;
use crate::types::ident::ScColor;
use crate::types::ident::ScHash;
use crate::types::ident::ScHname;
use crate::types::ident::ScRequestId;
use crate::types::tag::ScTag;
use crate::wire::announced;
use crate::wire::holds_prefixed;
use crate::wire::int64_of_pattern;
use crate::wire::int64_pattern;
use crate::wire::int64_wire;
use crate::wire::le_bytes;
use crate::wire::le_value;
use crate::wire::lemma_int64_round_trip;
use crate::wire::lemma_le_bytes_len;
use crate::wire::lemma_le_bytes_of_value;
use crate::wire::lemma_le_value_bound;
use crate::wire::lemma_prefixed_round_trip;
use crate::wire::lemma_span_values;
use crate::wire::lemma_untwos_round_trip;
use crate::wire::payload;
use crate::wire::prefixed;
use vstd::prelude::*;
use vstd::std_specs::convert::FromSpecImpl;
use vstd::utf8::decode_utf8_encode_utf8;
use vstd::utf8::encode_utf8;
use vstd::utf8::encode_utf8_decode_utf8;
use vstd::utf8::encode_utf8_valid_utf8;
use vstd::utf8::valid_utf8;

verus! {

/// Represents any valid smart contract value.
#[derive(Clone, Debug, PartialEq)]
pub enum ScValue {
    /// Represents a smart contract address.
    Address(ScAddress),
    /// Represents a smart contract agent id.
    AgentId(ScAgentId),
    /// Represents a smart contract byte vector.
    Bytes(ScBytes),
    /// Represents a smart contract chain id.
    ChainId(ScChainId),
    /// Represents a smart contract color.
    Color(ScColor),
    /// Represents a smart contract hash.
    Hash(ScHash),
    /// Represents a smart contract hash name.
    Hname(ScHname),
    /// Represents a smart contract integer.
    Int64(ScInt64),
    /// Represents a smart contract request id.
    RequestId(ScRequestId),
    /// Represents a smart contract string.
    String(ScString),
}

/// What an `ScValue` holds, as mathematics: identifiers and byte vectors as
/// sequences of bytes, strings as sequences of characters.
pub enum Value {
    Address(Seq<u8>),
    AgentId(Seq<u8>),
    Bytes(Seq<u8>),
    ChainId(Seq<u8>),
    Color(Seq<u8>),
    Hash(Seq<u8>),
    Hname(Seq<u8>),
    Int64(i64),
    RequestId(Seq<u8>),
    String(Seq<char>),
}

/// The number of bytes of an identifier kind; `None` for the kinds that are
/// not identifiers.
pub open spec fn ident_size(tag: ScTag) -> Option<nat> {
    match tag {
        ScTag::Address => Some(33nat),
        ScTag::AgentId => Some(37nat),
        ScTag::ChainId => Some(33nat),
        ScTag::Color => Some(32nat),
        ScTag::Hash => Some(32nat),
        ScTag::Hname => Some(4nat),
        ScTag::RequestId => Some(34nat),
        ScTag::Bytes | ScTag::Int64 | ScTag::String => None,
    }
}

impl Value {
    /// The kind of the value.
    pub open spec fn tag(self) -> ScTag {
        match self {
            Value::Address(_) => ScTag::Address,
            Value::AgentId(_) => ScTag::AgentId,
            Value::Bytes(_) => ScTag::Bytes,
            Value::ChainId(_) => ScTag::ChainId,
            Value::Color(_) => ScTag::Color,
            Value::Hash(_) => ScTag::Hash,
            Value::Hname(_) => ScTag::Hname,
            Value::Int64(_) => ScTag::Int64,
            Value::RequestId(_) => ScTag::RequestId,
            Value::String(_) => ScTag::String,
        }
    }

    /// The identifier of kind `tag` that holds `bytes`.
    pub open spec fn ident(tag: ScTag, bytes: Seq<u8>) -> Value
        recommends
            ident_size(tag).is_some(),
    {
        match tag {
            ScTag::Address => Value::Address(bytes),
            ScTag::AgentId => Value::AgentId(bytes),
            ScTag::ChainId => Value::ChainId(bytes),
            ScTag::Color => Value::Color(bytes),
            ScTag::Hash => Value::Hash(bytes),
            ScTag::Hname => Value::Hname(bytes),
            _ => Value::RequestId(bytes),
        }
    }

    /// The bytes of an identifier; empty for the kinds that are not
    /// identifiers.
    pub open spec fn ident_bytes(self) -> Seq<u8> {
        match self {
            Value::Address(bytes) => bytes,
            Value::AgentId(bytes) => bytes,
            Value::ChainId(bytes) => bytes,
            Value::Color(bytes) => bytes,
            Value::Hash(bytes) => bytes,
            Value::Hname(bytes) => bytes,
            Value::RequestId(bytes) => bytes,
            _ => Seq::<u8>::empty(),
        }
    }

    /// Whether the value is one that an `ScValue` can hold: an identifier has
    /// the size of its kind.
    pub open spec fn valid(self) -> bool {
        match ident_size(self.tag()) {
            Some(size) => self.ident_bytes().len() == size,
            None => true,
        }
    }

    /// Whether the value can be written: a length has to fit its four-byte
    /// prefix.
    pub open spec fn fits(self) -> bool {
        match self {
            Value::Bytes(bytes) => bytes.len() <= u32::MAX,
            Value::String(text) => encode_utf8(text).len() <= u32::MAX,
            _ => true,
        }
    }

    /// The canonical bytes of the value: an identifier as it is, an integer
    /// as eight little-endian bytes, a byte vector or a string behind its
    /// length. No kind is written.
    pub open spec fn wire(self) -> Seq<u8> {
        match self {
            Value::Bytes(bytes) => prefixed(bytes),
            Value::Int64(number) => int64_wire(number),
            Value::String(text) => prefixed(encode_utf8(text)),
            _ => self.ident_bytes(),
        }
    }

    /// What stands at the front of `bytes` when read as a value of kind
    /// `tag`: the value and the number of bytes that it spans, or `None`
    /// where `bytes` ends before the value does.
    pub open spec fn parse(tag: ScTag, bytes: Seq<u8>) -> Option<(Value, nat)> {
        match tag {
            ScTag::Bytes => if holds_prefixed(bytes) {
                Some((Value::Bytes(payload(bytes)), 4 + announced(bytes)))
            } else {
                None
            },
            ScTag::String => if holds_prefixed(bytes) {
                Some((Value::String(text_of(payload(bytes))), 4 + announced(bytes)))
            } else {
                None
            },
            ScTag::Int64 => if bytes.len() >= 8 {
                Some((Value::Int64(int64_of_pattern(le_value(bytes.take(8)))), 8nat))
            } else {
                None
            },
            _ => {
                let size = ident_size(tag).unwrap();
                if bytes.len() >= size {
                    Some((Value::ident(tag, bytes.take(size as int)), size))
                } else {
                    None
                }
            },
        }
    }
}

/// A value that was written is read back as it was, and reading stops where
/// the value ends, whatever bytes follow it.
pub proof fn lemma_round_trip(value: Value, rest: Seq<u8>)
    requires
        value.valid(),
        value.fits(),
    ensures
        Value::parse(value.tag(), value.wire() + rest) == Some((value, value.wire().len())),
{
    let bytes = value.wire() + rest;
    lemma_span_values();
    match value {
        Value::Bytes(data) => {
            lemma_prefixed_round_trip(data, rest);
        },
        Value::String(text) => {
            lemma_prefixed_round_trip(encode_utf8(text), rest);
            encode_utf8_valid_utf8(text);
            encode_utf8_decode_utf8(text);
        },
        Value::Int64(number) => {
            lemma_int64_round_trip(number, rest);
        },
        _ => {
            assert(bytes.take(value.ident_bytes().len() as int) =~= value.ident_bytes());
        },
    }
}

/// The layout is canonical: what was read, written again, gives exactly the
/// bytes that it was read from. A string is left out where its payload is
/// not valid UTF-8, which reading repairs.
pub proof fn lemma_canonical(tag: ScTag, bytes: Seq<u8>)
    requires
        Value::parse(tag, bytes).is_some(),
        tag == ScTag::String ==> valid_utf8(payload(bytes)),
    ensures
        Value::parse(tag, bytes).unwrap().0.tag() == tag,
        Value::parse(tag, bytes).unwrap().0.valid(),
        Value::parse(tag, bytes).unwrap().0.fits(),
        Value::parse(tag, bytes).unwrap().0.wire() == bytes.take(
            Value::parse(tag, bytes).unwrap().1 as int,
        ),
{
    let (value, taken) = Value::parse(tag, bytes).unwrap();
    lemma_span_values();
    match tag {
        ScTag::Bytes => {
            lemma_le_value_bound(bytes.take(4));
            lemma_le_bytes_of_value(bytes.take(4));
            assert(value.wire() =~= bytes.take(taken as int));
        },
        ScTag::String => {
            lemma_le_value_bound(bytes.take(4));
            lemma_le_bytes_of_value(bytes.take(4));
            decode_utf8_encode_utf8(payload(bytes));
            assert(value.wire() =~= bytes.take(taken as int));
        },
        ScTag::Int64 => {
            lemma_le_value_bound(bytes.take(8));
            lemma_le_bytes_of_value(bytes.take(8));
            lemma_untwos_round_trip(le_value(bytes.take(8)), 8);
        },
        _ => {},
    }
}

/// A value never spans more bytes than there are.
pub proof fn lemma_parse_in_range(tag: ScTag, bytes: Seq<u8>)
    requires
        Value::parse(tag, bytes).is_some(),
    ensures
        Value::parse(tag, bytes).unwrap().1 <= bytes.len(),
{
}

/// An empty byte vector and an empty string are written as the four bytes of
/// the length zero, and reading either back takes those four bytes and no
/// more.
pub proof fn lemma_empty_payload(rest: Seq<u8>)
    ensures
        Value::Bytes(Seq::<u8>::empty()).wire() == le_bytes(0, 4),
        Value::String(Seq::<char>::empty()).wire() == le_bytes(0, 4),
        le_bytes(0, 4) == seq![0u8, 0u8, 0u8, 0u8],
        Value::parse(ScTag::Bytes, le_bytes(0, 4) + rest) == Some(
            (Value::Bytes(Seq::<u8>::empty()), 4nat),
        ),
        Value::parse(ScTag::String, le_bytes(0, 4) + rest) == Some(
            (Value::String(Seq::<char>::empty()), 4nat),
        ),
{
    let none = Seq::<u8>::empty();
    let text = Seq::<char>::empty();
    assert(encode_utf8(text) =~= none);
    assert(prefixed(none) =~= le_bytes(0, 4));
    lemma_le_bytes_len(0, 4);
    lemma_round_trip(Value::Bytes(none), rest);
    lemma_round_trip(Value::String(text), rest);
    reveal_with_fuel(le_bytes, 5);
    assert(le_bytes(0, 4) =~= seq![0u8, 0u8, 0u8, 0u8]);
}

/// Bytes that end before the value does hold no value: what is one byte
/// short of a written value cannot be read.
pub proof fn lemma_truncated(value: Value, missing: nat)
    requires
        value.valid(),
        value.fits(),
        0 < missing <= value.wire().len(),
    ensures
        Value::parse(value.tag(), value.wire().take(value.wire().len() - missing)).is_none(),
{
    let whole = value.wire();
    let short = whole.take(whole.len() - missing);
    lemma_span_values();
    match value {
        Value::Bytes(data) => {
            lemma_truncated_prefixed(data, missing);
        },
        Value::String(text) => {
            lemma_truncated_prefixed(encode_utf8(text), missing);
        },
        Value::Int64(number) => {
            lemma_le_bytes_len(int64_pattern(number), 8);
        },
        _ => {},
    }
}

/// A length-prefixed byte string that lost bytes at its end is not whole.
proof fn lemma_truncated_prefixed(data: Seq<u8>, missing: nat)
    requires
        data.len() <= u32::MAX,
        0 < missing <= prefixed(data).len(),
    ensures
        !holds_prefixed(prefixed(data).take(prefixed(data).len() - missing)),
{
    let whole = prefixed(data);
    let short = whole.take(whole.len() - missing);
    lemma_span_values();
    lemma_prefixed_round_trip(data, Seq::<u8>::empty());
    assert(whole + Seq::<u8>::empty() =~= whole);
    if short.len() >= 4 {
        assert(short.take(4) =~= whole.take(4));
    }
}

impl View for ScValue {
    type V = Value;

    open spec fn view(&self) -> Value {
        match self {
            ScValue::Address(inner) => Value::Address(inner@),
            ScValue::AgentId(inner) => Value::AgentId(inner@),
            ScValue::Bytes(inner) => Value::Bytes(inner@),
            ScValue::ChainId(inner) => Value::ChainId(inner@),
            ScValue::Color(inner) => Value::Color(inner@),
            ScValue::Hash(inner) => Value::Hash(inner@),
            ScValue::Hname(inner) => Value::Hname(inner@),
            ScValue::Int64(inner) => Value::Int64(*inner),
            ScValue::RequestId(inner) => Value::RequestId(inner@),
            ScValue::String(inner) => Value::String(inner@),
        }
    }
}

impl Encode for ScValue {
    open spec fn wire(&self) -> Seq<u8> {
        self@.wire()
    }

    open spec fn fits(&self) -> bool {
        self@.fits()
    }

    fn encode(&self, encoder: &mut Encoder) {
        assert(self.fits() == self@.fits());
        assert(self.wire() == self@.wire());
        match self {
            ScValue::Address(inner) => inner.encode(encoder),
            ScValue::AgentId(inner) => inner.encode(encoder),
            ScValue::Bytes(inner) => inner.encode(encoder),
            ScValue::ChainId(inner) => inner.encode(encoder),
            ScValue::Color(inner) => inner.encode(encoder),
            ScValue::Hash(inner) => inner.encode(encoder),
            ScValue::Hname(inner) => inner.encode(encoder),
            ScValue::Int64(inner) => inner.encode(encoder),
            ScValue::RequestId(inner) => inner.encode(encoder),
            ScValue::String(inner) => inner.encode(encoder),
        }
    }
}

impl ScValue {
    /// What an `ScValue` holds is always valid.
    pub proof fn lemma_valid(self)
        ensures
            self@.valid(),
    {
        match self {
            ScValue::Address(inner) => inner.lemma_len(),
            ScValue::AgentId(inner) => inner.lemma_len(),
            ScValue::ChainId(inner) => inner.lemma_len(),
            ScValue::Color(inner) => inner.lemma_len(),
            ScValue::Hash(inner) => inner.lemma_len(),
            ScValue::Hname(inner) => inner.lemma_len(),
            ScValue::RequestId(inner) => inner.lemma_len(),
            _ => {},
        }
    }

    /// Tells whether a whole value of kind `tag` stands at the decoder's
    /// position.
    pub fn complete(tag: ScTag, decoder: &Decoder<'_>) -> (whole: bool)
        ensures
            whole == Value::parse(tag, decoder.remaining()).is_some(),
    {
        match tag {
            ScTag::Address => ScAddress::complete(decoder),
            ScTag::AgentId => ScAgentId::complete(decoder),
            ScTag::Bytes => ScBytes::complete(decoder),
            ScTag::ChainId => ScChainId::complete(decoder),
            ScTag::Color => ScColor::complete(decoder),
            ScTag::Hash => ScHash::complete(decoder),
            ScTag::Hname => ScHname::complete(decoder),
            ScTag::Int64 => ScInt64::complete(decoder),
            ScTag::RequestId => ScRequestId::complete(decoder),
            ScTag::String => ScString::complete(decoder),
        }
    }

    /// Reads the value of kind `tag` at the decoder's position and moves past
    /// it.
    pub fn decode(tag: ScTag, decoder: &mut Decoder<'_>) -> (value: ScValue)
        requires
            Value::parse(tag, old(decoder).remaining()).is_some(),
        ensures
            Value::parse(tag, old(decoder).remaining()) == Some(
                (value@, (final(decoder).position() - old(decoder).position()) as nat),
            ),
            final(decoder).position() >= old(decoder).position(),
            final(decoder).source() == old(decoder).source(),
            final(decoder).remaining() == old(decoder).remaining().skip(
                final(decoder).position() - old(decoder).position(),
            ),
    {
        match tag {
            ScTag::Address => ScValue::Address(ScAddress::decode(decoder)),
            ScTag::AgentId => ScValue::AgentId(ScAgentId::decode(decoder)),
            ScTag::Bytes => ScValue::Bytes(ScBytes::decode(decoder)),
            ScTag::ChainId => ScValue::ChainId(ScChainId::decode(decoder)),
            ScTag::Color => ScValue::Color(ScColor::decode(decoder)),
            ScTag::Hash => ScValue::Hash(ScHash::decode(decoder)),
            ScTag::Hname => ScValue::Hname(ScHname::decode(decoder)),
            ScTag::Int64 => ScValue::Int64(ScInt64::decode(decoder)),
            ScTag::RequestId => ScValue::RequestId(ScRequestId::decode(decoder)),
            ScTag::String => ScValue::String(ScString::decode(decoder)),
        }
    }

    /// Decodes an `ScValue` from the given type tag and slice of bytes.
    pub fn from_bytes(tag: ScTag, bytes: &[u8]) -> (value: ScValue)
        requires
            Value::parse(tag, bytes@).is_some(),
        ensures
            value@ == Value::parse(tag, bytes@).unwrap().0,
    {
        let mut decoder: Decoder<'_> = Decoder::new(bytes);
        ScValue::decode(tag, &mut decoder)
    }

    /// Returns the value tag and encoded vector of bytes.
    pub fn to_bytes(&self) -> (tagged: (ScTag, Vec<u8>))
        requires
            self@.fits(),
        ensures
            tagged.0 == self@.tag(),
            tagged.1@ == self@.wire(),
    {
        (self.tag(), self.to_untagged_bytes())
    }

    /// Encodes this value as a vector of bytes.
    ///
    /// Note: The type id is **not** included in this serialization.
    pub fn to_untagged_bytes(&self) -> (bytes: Vec<u8>)
        requires
            self@.fits(),
        ensures
            bytes@ == self@.wire(),
    {
        let mut encoder: Encoder = Encoder::new();
        self.encode(&mut encoder);
        assert(Seq::<u8>::empty() + self@.wire() =~= self@.wire());
        encoder.data()
    }

    /// Tells whether the value can be written: a byte vector or a string has
    /// to be short enough for its length to fit four bytes.
    pub fn is_encodable(&self) -> (fits: bool)
        ensures
            fits == self@.fits(),
    {
        match self {
            ScValue::Bytes(inner) => inner.len() <= u32::MAX as usize,
            ScValue::String(inner) => inner.as_str().as_bytes().len() <= u32::MAX as usize,
            _ => true,
        }
    }

    /// Returns the tag identifying the value type.
    pub fn tag(&self) -> (tag: ScTag)
        ensures
            tag == self@.tag(),
    {
        match self {
            ScValue::Address(_) => ScTag::Address,
            ScValue::AgentId(_) => ScTag::AgentId,
            ScValue::Bytes(_) => ScTag::Bytes,
            ScValue::ChainId(_) => ScTag::ChainId,
            ScValue::Color(_) => ScTag::Color,
            ScValue::Hash(_) => ScTag::Hash,
            ScValue::Hname(_) => ScTag::Hname,
            ScValue::Int64(_) => ScTag::Int64,
            ScValue::RequestId(_) => ScTag::RequestId,
            ScValue::String(_) => ScTag::String,
        }
    }

    /// Returns `true` if the value is an address.
    pub fn is_address(&self) -> (is: bool)
        ensures
            is == (self@.tag() == ScTag::Address),
    {
        matches!(self, ScValue::Address(_))
    }

    /// Returns `true` if the value is an agent id.
    pub fn is_agent_id(&self) -> (is: bool)
        ensures
            is == (self@.tag() == ScTag::AgentId),
    {
        matches!(self, ScValue::AgentId(_))
    }

    /// Returns `true` if the value is a byte vector.
    pub fn is_bytes(&self) -> (is: bool)
        ensures
            is == (self@.tag() == ScTag::Bytes),
    {
        matches!(self, ScValue::Bytes(_))
    }

    /// Returns `true` if the value is a chain id.
    pub fn is_chain_id(&self) -> (is: bool)
        ensures
            is == (self@.tag() == ScTag::ChainId),
    {
        matches!(self, ScValue::ChainId(_))
    }

    /// Returns `true` if the value is a color.
    pub fn is_color(&self) -> (is: bool)
        ensures
            is == (self@.tag() == ScTag::Color),
    {
        matches!(self, ScValue::Color(_))
    }

    /// Returns `true` if the value is a hash.
    pub fn is_hash(&self) -> (is: bool)
        ensures
            is == (self@.tag() == ScTag::Hash),
    {
        matches!(self, ScValue::Hash(_))
    }

    /// Returns `true` if the value is a hash name.
    pub fn is_hname(&self) -> (is: bool)
        ensures
            is == (self@.tag() == ScTag::Hname),
    {
        matches!(self, ScValue::Hname(_))
    }

    /// Returns `true` if the value is an integer.
    pub fn is_int64(&self) -> (is: bool)
        ensures
            is == (self@.tag() == ScTag::Int64),
    {
        matches!(self, ScValue::Int64(_))
    }

    /// Returns `true` if the value is a request id.
    pub fn is_request_id(&self) -> (is: bool)
        ensures
            is == (self@.tag() == ScTag::RequestId),
    {
        matches!(self, ScValue::RequestId(_))
    }

    /// Returns `true` if the value is a string.
    pub fn is_string(&self) -> (is: bool)
        ensures
            is == (self@.tag() == ScTag::String),
    {
        matches!(self, ScValue::String(_))
    }
}

impl From<ScAddress> for ScValue {
    fn from(other: ScAddress) -> (value: Self) {
        ScValue::Address(other)
    }
}

impl FromSpecImpl<ScAddress> for ScValue {
    open spec fn obeys_from_spec() -> bool {
        true
    }

    open spec fn from_spec(other: ScAddress) -> Self {
        ScValue::Address(other)
    }
}

impl From<ScAgentId> for ScValue {
    fn from(other: ScAgentId) -> (value: Self) {
        ScValue::AgentId(other)
    }
}

impl FromSpecImpl<ScAgentId> for ScValue {
    open spec fn obeys_from_spec() -> bool {
        true
    }

    open spec fn from_spec(other: ScAgentId) -> Self {
        ScValue::AgentId(other)
    }
}

impl From<ScBytes> for ScValue {
    fn from(other: ScBytes) -> (value: Self) {
        ScValue::Bytes(other)
    }
}

impl FromSpecImpl<ScBytes> for ScValue {
    open spec fn obeys_from_spec() -> bool {
        true
    }

    open spec fn from_spec(other: ScBytes) -> Self {
        ScValue::Bytes(other)
    }
}

impl From<ScChainId> for ScValue {
    fn from(other: ScChainId) -> (value: Self) {
        ScValue::ChainId(other)
    }
}

impl FromSpecImpl<ScChainId> for ScValue {
    open spec fn obeys_from_spec() -> bool {
        true
    }

    open spec fn from_spec(other: ScChainId) -> Self {
        ScValue::ChainId(other)
    }
}

impl From<ScColor> for ScValue {
    fn from(other: ScColor) -> (value: Self) {
        ScValue::Color(other)
    }
}

impl FromSpecImpl<ScColor> for ScValue {
    open spec fn obeys_from_spec() -> bool {
        true
    }

    open spec fn from_spec(other: ScColor) -> Self {
        ScValue::Color(other)
    }
}

impl From<ScHash> for ScValue {
    fn from(other: ScHash) -> (value: Self) {
        ScValue::Hash(other)
    }
}

impl FromSpecImpl<ScHash> for ScValue {
    open spec fn obeys_from_spec() -> bool {
        true
    }

    open spec fn from_spec(other: ScHash) -> Self {
        ScValue::Hash(other)
    }
}

impl From<ScHname> for ScValue {
    fn from(other: ScHname) -> (value: Self) {
        ScValue::Hname(other)
    }
}

impl FromSpecImpl<ScHname> for ScValue {
    open spec fn obeys_from_spec() -> bool {
        true
    }

    open spec fn from_spec(other: ScHname) -> Self {
        ScValue::Hname(other)
    }
}

impl From<ScInt64> for ScValue {
    fn from(other: ScInt64) -> (value: Self) {
        ScValue::Int64(other)
    }
}

impl FromSpecImpl<ScInt64> for ScValue {
    open spec fn obeys_from_spec() -> bool {
        true
    }

    open spec fn from_spec(other: ScInt64) -> Self {
        ScValue::Int64(other)
    }
}

impl From<ScRequestId> for ScValue {
    fn from(other: ScRequestId) -> (value: Self) {
        ScValue::RequestId(other)
    }
}

impl FromSpecImpl<ScRequestId> for ScValue {
    open spec fn obeys_from_spec() -> bool {
        true
    }

    open spec fn from_spec(other: ScRequestId) -> Self {
        ScValue::RequestId(other)
    }
}

impl From<ScString> for ScValue {
    fn from(other: ScString) -> (value: Self) {
        ScValue::String(other)
    }
}

impl FromSpecImpl<ScString> for ScValue {
    open spec fn obeys_from_spec() -> bool {
        true
    }

    open spec fn from_spec(other: ScString) -> Self {
        ScValue::String(other)
    }
}

} // verus!
