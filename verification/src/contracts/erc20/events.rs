//! The events that a token emits. Each is a record of three fields and is
//! written as its fields, in declaration order.

use crate::decoder::Decoder;
use crate::derive::record::lemma_wire_all_push;
use crate::derive::record::wire_all;
use crate::encoder::Encoder;
use crate::traits::encode::Decode;
use crate::traits::encode::Encode;
use crate::types::ident::ScAgentId;
use crate::types::value::Value;
use crate::wire::int64_of_pattern;
use crate::wire::int64_wire;
use crate::wire::le_value;
use crate::wire::lemma_int64_round_trip;
use vstd::prelude::*;

verus! {

/// What an event of two agents and an amount holds, as mathematics.
pub struct EventModel {
    pub first: Seq<u8>,
    pub second: Seq<u8>,
    pub value: i64,
}

/// The layout of an event: the first agent, the second agent, the amount.
pub open spec fn event_wire(event: EventModel) -> Seq<u8> {
    event.first + event.second + int64_wire(event.value)
}

/// What stands at the front of `bytes` when read as an event: two agent ids
/// of 37 bytes each and an integer of eight bytes, or `None` where `bytes`
/// ends before the event does.
pub open spec fn parse_event(bytes: Seq<u8>) -> Option<(EventModel, nat)> {
    if bytes.len() >= 82 {
        Some(
            (
                EventModel {
                    first: bytes.take(37),
                    second: bytes.skip(37).take(37),
                    value: int64_of_pattern(le_value(bytes.skip(74).take(8))),
                },
                82nat,
            ),
        )
    } else {
        None
    }
}

/// The fields of an event as values, in declaration order.
pub open spec fn event_fields(event: EventModel) -> Seq<Value> {
    seq![Value::AgentId(event.first), Value::AgentId(event.second), Value::Int64(event.value)]
}

/// An event is written as a record of its three fields is: field after
/// field, in declaration order.
pub proof fn lemma_event_layout(event: EventModel)
    ensures
        event_wire(event) == wire_all(event_fields(event)),
{
    let none = Seq::<Value>::empty();
    let one = none.push(Value::AgentId(event.first));
    let two = one.push(Value::AgentId(event.second));
    lemma_wire_all_push(none, Value::AgentId(event.first));
    lemma_wire_all_push(one, Value::AgentId(event.second));
    lemma_wire_all_push(two, Value::Int64(event.value));
    assert(two.push(Value::Int64(event.value)) =~= event_fields(event));
    assert(wire_all(none) + event.first =~= event.first);
}

/// Writes the three fields of an event, in declaration order.
fn encode_event(first: &ScAgentId, second: &ScAgentId, value: i64, encoder: &mut Encoder)
    ensures
        final(encoder)@ == old(encoder)@ + event_wire(
            EventModel { first: first@, second: second@, value },
        ),
{
    first.encode(encoder);
    second.encode(encoder);
    value.encode(encoder);
    assert(encoder@ =~= old(encoder)@ + (first@ + second@ + int64_wire(value)));
}

/// Reads the three fields of an event, in declaration order.
fn decode_event(decoder: &mut Decoder<'_>) -> (fields: (ScAgentId, ScAgentId, i64))
    requires
        parse_event(old(decoder).remaining()).is_some(),
    ensures
        parse_event(old(decoder).remaining()) == Some(
            (EventModel { first: fields.0@, second: fields.1@, value: fields.2 }, 82nat),
        ),
        final(decoder).position() == old(decoder).position() + 82,
        final(decoder).source() == old(decoder).source(),
        final(decoder).remaining() == old(decoder).remaining().skip(82),
{
    let ghost before = decoder.remaining();
    let first: ScAgentId = ScAgentId::decode(decoder);
    let second: ScAgentId = ScAgentId::decode(decoder);
    assert(decoder.remaining() =~= before.skip(74));
    let value: i64 = i64::decode(decoder);
    assert(decoder.remaining() =~= before.skip(82));
    (first, second, value)
}

/// Emitted when the allowance of a spender changes.
#[derive(Clone, Debug, PartialEq)]
pub struct Approval {
    pub owner: ScAgentId,
    pub spender: ScAgentId,
    pub value: i64,
}

impl View for Approval {
    type V = EventModel;

    open spec fn view(&self) -> EventModel {
        EventModel { first: self.owner@, second: self.spender@, value: self.value }
    }
}

impl Approval {
    /// Creates the event that `spender` may now spend `value` of `owner`.
    pub fn new(owner: ScAgentId, spender: ScAgentId, value: i64) -> (event: Self)
        ensures
            event.owner == owner,
            event.spender == spender,
            event.value == value,
    {
        Self { owner, spender, value }
    }
}

impl Encode for Approval {
    open spec fn wire(&self) -> Seq<u8> {
        event_wire(self@)
    }

    open spec fn fits(&self) -> bool {
        true
    }

    fn encode(&self, encoder: &mut Encoder) {
        encode_event(&self.owner, &self.spender, self.value, encoder);
        assert(self.wire() == event_wire(self@));
    }
}

impl Decode for Approval {
    open spec fn parse(bytes: Seq<u8>) -> Option<(EventModel, nat)> {
        parse_event(bytes)
    }

    fn complete(decoder: &Decoder<'_>) -> (whole: bool) {
        assert(Self::parse(decoder.remaining()) == parse_event(decoder.remaining()));
        decoder.left() >= 82
    }

    fn decode(decoder: &mut Decoder<'_>) -> (value: Self) {
        assert(Self::parse(decoder.remaining()) == parse_event(decoder.remaining()));
        let (owner, spender, value) = decode_event(decoder);
        Approval { owner, spender, value }
    }
}

/// Emitted when tokens are transferred, including zero value transfers.
#[derive(Clone, Debug, PartialEq)]
pub struct Transfer {
    pub from: ScAgentId,
    pub to: ScAgentId,
    pub value: i64,
}

impl View for Transfer {
    type V = EventModel;

    open spec fn view(&self) -> EventModel {
        EventModel { first: self.from@, second: self.to@, value: self.value }
    }
}

impl Transfer {
    /// Creates the event that `value` went from `from` to `to`.
    pub fn new(from: ScAgentId, to: ScAgentId, value: i64) -> (event: Self)
        ensures
            event.from == from,
            event.to == to,
            event.value == value,
    {
        Self { from, to, value }
    }
}

impl Encode for Transfer {
    open spec fn wire(&self) -> Seq<u8> {
        event_wire(self@)
    }

    open spec fn fits(&self) -> bool {
        true
    }

    fn encode(&self, encoder: &mut Encoder) {
        encode_event(&self.from, &self.to, self.value, encoder);
        assert(self.wire() == event_wire(self@));
    }
}

impl Decode for Transfer {
    open spec fn parse(bytes: Seq<u8>) -> Option<(EventModel, nat)> {
        parse_event(bytes)
    }

    fn complete(decoder: &Decoder<'_>) -> (whole: bool) {
        assert(Self::parse(decoder.remaining()) == parse_event(decoder.remaining()));
        decoder.left() >= 82
    }

    fn decode(decoder: &mut Decoder<'_>) -> (value: Self) {
        assert(Self::parse(decoder.remaining()) == parse_event(decoder.remaining()));
        let (from, to, value) = decode_event(decoder);
        Transfer { from, to, value }
    }
}

/// An event that was written is read back as it was, whatever follows it.
pub proof fn lemma_event_round_trip(event: EventModel, rest: Seq<u8>)
    requires
        event.first.len() == 37,
        event.second.len() == 37,
    ensures
        event_wire(event).len() == 82,
        parse_event(event_wire(event) + rest) == Some((event, 82nat)),
{
    let bytes = event_wire(event) + rest;
    lemma_int64_round_trip(event.value, rest);
    assert(bytes.take(37) =~= event.first);
    assert(bytes.skip(37).take(37) =~= event.second);
    assert(bytes.skip(74).take(8) =~= (int64_wire(event.value) + rest).take(8));
}

} // verus!
