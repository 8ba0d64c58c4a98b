//! A record at run time: the values of its fields in declaration order, and
//! the wire layout that follows from that order alone.

use crate::derive::internal::style::Style;
use crate::types::tag::ScTag;
use crate::types::value::lemma_round_trip;
use crate::types::value::lemma_truncated;
use crate::types::value::ScValue;
use crate::types::value::Value;
use vstd::prelude::*;

verus! {

/// The values of the fields of a record, in declaration order. By the time a
/// record exists only the kinds and the order of its fields matter; the
/// style says whether it was built by field name or by position.
#[derive(Clone, Debug, PartialEq)]
pub struct Record {
    /// `Style::Struct` for a record with named fields, `Style::Tuple` for
    /// one with positional fields.
    pub style: Style,
    /// The value of each field, in declaration order.
    pub values: Vec<ScValue>,
}

/// What a `Record` holds, as mathematics.
pub struct RecordModel {
    pub style: Style,
    pub values: Seq<Value>,
}

impl View for Record {
    type V = RecordModel;

    open spec fn view(&self) -> RecordModel {
        RecordModel {
            style: self.style,
            values: Seq::new(self.values@.len(), |i: int| self.values@[i]@),
        }
    }
}

/// The kinds of `values`, in order.
pub open spec fn kinds_of(values: Seq<Value>) -> Seq<ScTag> {
    Seq::new(values.len(), |i: int| values[i].tag())
}

/// Whether each of `values` can be written.
pub open spec fn fit_all(values: Seq<Value>) -> bool {
    forall|i: int| 0 <= i < values.len() ==> (#[trigger] values[i]).fits()
}

/// Whether each of `values` is one that an `ScValue` can hold.
pub open spec fn valid_all(values: Seq<Value>) -> bool {
    forall|i: int| 0 <= i < values.len() ==> (#[trigger] values[i]).valid()
}

/// The wire layout of a record: the canonical bytes of each field, one after
/// the other in declaration order, with nothing before, between or after
/// them.
pub open spec fn wire_all(values: Seq<Value>) -> Seq<u8>
    decreases values.len(),
{
    if values.len() == 0 {
        Seq::<u8>::empty()
    } else {
        values[0].wire() + wire_all(values.drop_first())
    }
}

/// What stands at the front of `bytes` when read as a record whose fields
/// have the kinds `kinds`: the values of the fields and the number of bytes
/// that they span together, or `None` where `bytes` ends before the last
/// field does. Each field is read where the one before it ended.
pub open spec fn parse_all(kinds: Seq<ScTag>, bytes: Seq<u8>) -> Option<(Seq<Value>, nat)>
    decreases kinds.len(),
{
    if kinds.len() == 0 {
        Some((Seq::<Value>::empty(), 0nat))
    } else {
        match Value::parse(kinds[0], bytes) {
            None => None,
            Some((first, taken)) => match parse_all(kinds.drop_first(), bytes.skip(taken as int)) {
                None => None,
                Some((rest, more)) => Some((seq![first] + rest, taken + more)),
            },
        }
    }
}

/// The layout of a record with one more field at its end is the layout of
/// the record followed by the bytes of that field.
pub proof fn lemma_wire_all_push(values: Seq<Value>, last: Value)
    ensures
        wire_all(values.push(last)) == wire_all(values) + last.wire(),
    decreases values.len(),
{
    let longer = values.push(last);
    if values.len() == 0 {
        assert(longer.drop_first() =~= Seq::<Value>::empty());
        assert(wire_all(longer.drop_first()) =~= Seq::<u8>::empty());
        assert(wire_all(longer) =~= wire_all(values) + last.wire());
    } else {
        lemma_wire_all_push(values.drop_first(), last);
        assert(longer.drop_first() =~= values.drop_first().push(last));
        assert(wire_all(longer) =~= wire_all(values) + last.wire());
    }
}

/// The layout of two rows of fields, one after the other, is the layout of
/// the first followed by the layout of the second.
pub proof fn lemma_wire_all_concat(front: Seq<Value>, back: Seq<Value>)
    ensures
        wire_all(front + back) == wire_all(front) + wire_all(back),
    decreases front.len(),
{
    if front.len() == 0 {
        assert(front + back =~= back);
        assert(wire_all(front + back) =~= wire_all(front) + wire_all(back));
    } else {
        lemma_wire_all_concat(front.drop_first(), back);
        assert((front + back).drop_first() =~= front.drop_first() + back);
        assert(wire_all(front + back) =~= wire_all(front) + wire_all(back));
    }
}

/// Reading a record field by field: once the first field is read, what is
/// left to read is the record of the remaining kinds, from where the first
/// field ended.
pub proof fn lemma_parse_all_step(kinds: Seq<ScTag>, done: int, bytes: Seq<u8>)
    requires
        0 <= done < kinds.len(),
        parse_all(kinds.skip(done), bytes).is_some(),
    ensures
        Value::parse(kinds[done], bytes).is_some(),
        parse_all(
            kinds.skip(done + 1),
            bytes.skip(Value::parse(kinds[done], bytes).unwrap().1 as int),
        ).is_some(),
        parse_all(kinds.skip(done), bytes).unwrap().0 == seq![
            Value::parse(kinds[done], bytes).unwrap().0,
        ] + parse_all(
            kinds.skip(done + 1),
            bytes.skip(Value::parse(kinds[done], bytes).unwrap().1 as int),
        ).unwrap().0,
        parse_all(kinds.skip(done), bytes).unwrap().1 == Value::parse(
            kinds[done],
            bytes,
        ).unwrap().1 + parse_all(
            kinds.skip(done + 1),
            bytes.skip(Value::parse(kinds[done], bytes).unwrap().1 as int),
        ).unwrap().1,
{
    assert(kinds.skip(done).drop_first() =~= kinds.skip(done + 1));
    assert(kinds.skip(done)[0] == kinds[done]);
}

/// Reading a record field by field: where the next field is missing, the
/// record of the remaining kinds is missing too.
pub proof fn lemma_parse_all_stuck(kinds: Seq<ScTag>, done: int, bytes: Seq<u8>)
    requires
        0 <= done < kinds.len(),
        Value::parse(kinds[done], bytes).is_none(),
    ensures
        parse_all(kinds.skip(done), bytes).is_none(),
{
    assert(kinds.skip(done)[0] == kinds[done]);
}

/// A record that was written is read back as it was, field for field, and
/// reading takes exactly the bytes that writing produced, whatever bytes
/// follow them.
pub proof fn lemma_record_round_trip(values: Seq<Value>, rest: Seq<u8>)
    requires
        valid_all(values),
        fit_all(values),
    ensures
        parse_all(kinds_of(values), wire_all(values) + rest) == Some(
            (values, wire_all(values).len()),
        ),
    decreases values.len(),
{
    let kinds = kinds_of(values);
    let bytes = wire_all(values) + rest;
    if values.len() == 0 {
        assert(parse_all(kinds, bytes).unwrap().0 =~= values);
    } else {
        let first = values[0];
        let tail = values.drop_first();
        let after = wire_all(tail) + rest;
        assert(bytes =~= first.wire() + after);
        lemma_round_trip(first, after);
        assert(bytes.skip(first.wire().len() as int) =~= after);
        assert(kinds.drop_first() =~= kinds_of(tail));
        assert(valid_all(tail)) by {
            assert forall|i: int| 0 <= i < tail.len() implies (#[trigger] tail[i]).valid() by {
                assert(tail[i] == values[i + 1]);
            }
        }
        assert(fit_all(tail)) by {
            assert forall|i: int| 0 <= i < tail.len() implies (#[trigger] tail[i]).fits() by {
                assert(tail[i] == values[i + 1]);
            }
        }
        lemma_record_round_trip(tail, rest);
        assert(seq![first] + tail =~= values);
        assert(wire_all(values).len() == first.wire().len() + wire_all(tail).len());
    }
}

/// Bytes that end before the record does hold no record: what is one byte,
/// or any number of bytes, short of a written record cannot be read.
pub proof fn lemma_record_truncated(values: Seq<Value>, missing: nat)
    requires
        valid_all(values),
        fit_all(values),
        0 < missing <= wire_all(values).len(),
    ensures
        parse_all(
            kinds_of(values),
            wire_all(values).take(wire_all(values).len() - missing),
        ).is_none(),
    decreases values.len(),
{
    let kinds = kinds_of(values);
    let whole = wire_all(values);
    let short = whole.take(whole.len() - missing);
    if values.len() > 0 {
        let first = values[0];
        let tail = values.drop_first();
        let head = first.wire();
        let after = wire_all(tail);
        assert(whole =~= head + after);
        if short.len() < head.len() {
            assert(short =~= head.take(short.len() as int));
            lemma_truncated(first, (head.len() - short.len()) as nat);
        } else {
            let kept = after.take(after.len() - missing);
            assert(short =~= head + kept);
            lemma_round_trip(first, kept);
            assert(short.skip(head.len() as int) =~= kept);
            assert(kinds.drop_first() =~= kinds_of(tail));
            assert(valid_all(tail)) by {
                assert forall|i: int| 0 <= i < tail.len() implies (#[trigger] tail[i]).valid() by {
                    assert(tail[i] == values[i + 1]);
                }
            }
            assert(fit_all(tail)) by {
                assert forall|i: int| 0 <= i < tail.len() implies (#[trigger] tail[i]).fits() by {
                    assert(tail[i] == values[i + 1]);
                }
            }
            lemma_record_truncated(tail, missing);
        }
    }
}

/// The wire layout follows the declared order of the fields: a record of two
/// fields is written as the first field followed by the second, and the
/// record with the two fields swapped as the second followed by the first.
/// Nothing on the wire names a field, so wherever the two encodings disagree
/// at a position that both have, the swapped record is written differently.
pub proof fn lemma_field_order(first: Value, second: Value, at: int)
    requires
        0 <= at < first.wire().len(),
        0 <= at < second.wire().len(),
        first.wire()[at] != second.wire()[at],
    ensures
        wire_all(seq![first, second]) == first.wire() + second.wire(),
        wire_all(seq![second, first]) == second.wire() + first.wire(),
        wire_all(seq![first, second]) != wire_all(seq![second, first]),
{
    lemma_pair_layout(first, second);
    lemma_pair_layout(second, first);
    assert((first.wire() + second.wire())[at] == first.wire()[at]);
    assert((second.wire() + first.wire())[at] == second.wire()[at]);
}

/// A record of two fields is written as the first field followed by the
/// second.
pub proof fn lemma_pair_layout(first: Value, second: Value)
    ensures
        wire_all(seq![first, second]) == first.wire() + second.wire(),
{
    let none = Seq::<Value>::empty();
    assert(seq![first, second] =~= none.push(first).push(second));
    lemma_wire_all_push(none.push(first), second);
    lemma_wire_all_push(none, first);
    assert(wire_all(none) + first.wire() =~= first.wire());
}

} // verus!
