//! The derivation of `decode`: one call per field, in declaration order,
//! all reading from one decoder, and the construction of the record from
//! what they return.

use crate::decoder::Decoder;
use crate::derive::ast::views;
use crate::derive::ast::DataDeclModel;
use crate::derive::ast::DeriveInput;
use crate::derive::ast::DeriveInputModel;
use crate::derive::code::expand_members;
use crate::derive::code::members_of;
use crate::derive::encode::encode_plan;
use crate::derive::error::DeriveError;
use crate::derive::internal::container::Container;
use crate::derive::internal::data::fields_of;
use crate::derive::internal::data::style_of;
use crate::derive::internal::data::Data;
use crate::derive::internal::data::DataModel;
use crate::derive::internal::field::Field;
use crate::derive::internal::field::Member;
use crate::derive::internal::field::MemberModel;
use crate::derive::internal::style::Style;
use crate::derive::record::lemma_parse_all_step;
use crate::derive::record::lemma_parse_all_stuck;
use crate::derive::record::parse_all;
use crate::derive::record::Record;
use crate::types::tag::ScTag;
use crate::types::value::lemma_parse_in_range;
use crate::types::value::ScValue;
use crate::types::value::Value;
use vstd::prelude::*;
use vstd::string::StringExecFns;

verus! {

/// How generated code builds the record from the decoded fields.
#[derive(Debug, PartialEq, Eq)]
pub enum Construct {
    /// By name: one call per member, each result bound to the field that
    /// the member names.
    ByName(Vec<Member>),
    /// By position: as many calls as the number says, the results handed
    /// over in call order.
    ByPosition(usize),
}

/// What a `Construct` holds, as mathematics.
pub enum ConstructModel {
    ByName(Seq<MemberModel>),
    ByPosition(nat),
}

impl View for Construct {
    type V = ConstructModel;

    open spec fn view(&self) -> ConstructModel {
        match self {
            Construct::ByName(members) => ConstructModel::ByName(views(members@)),
            Construct::ByPosition(count) => ConstructModel::ByPosition(*count as nat),
        }
    }
}

impl ConstructModel {
    /// The number of generated calls.
    pub open spec fn arity(self) -> nat {
        match self {
            ConstructModel::ByName(members) => members.len(),
            ConstructModel::ByPosition(count) => count,
        }
    }

    /// The style of the record that is built.
    pub open spec fn style(self) -> Style {
        match self {
            ConstructModel::ByName(_) => Style::Struct,
            ConstructModel::ByPosition(_) => Style::Tuple,
        }
    }
}

/// The generated implementation of `decode` for one record type.
#[derive(Debug, PartialEq, Eq)]
pub struct DecodeImpl {
    dummy: String,
    ident: String,
    body: Construct,
}

/// What the shape of a classified type makes of a request for `decode`: the
/// construction of a struct with named or positional fields, or the reason
/// why there is nothing to generate.
pub open spec fn decode_shape(data: DataModel) -> Result<ConstructModel, DeriveError> {
    match data {
        DataModel::Struct(style, fields) => if fields.len() == 0 {
            Err(DeriveError::UnitStruct)
        } else {
            match style {
                Style::Struct => Ok(ConstructModel::ByName(members_of(fields))),
                Style::Tuple => Ok(ConstructModel::ByPosition(fields.len())),
                Style::Unit => Err(DeriveError::UnitStruct),
            }
        },
        DataModel::Enum(_) => Err(DeriveError::Enum),
    }
}

/// What a declared type makes of a request for `decode`: the calls to
/// generate, one per field in declaration order, with the way to build the
/// record from them, or the reason why the request is refused. A struct
/// without fields, an enum and a union are refused; a struct with at least
/// one field is accepted.
pub open spec fn decode_plan(input: DeriveInputModel) -> Result<ConstructModel, DeriveError> {
    match input.data {
        DataDeclModel::Struct(fields) => if fields_of(fields).len() == 0 {
            Err(DeriveError::UnitStruct)
        } else {
            match style_of(fields) {
                Style::Struct => Ok(ConstructModel::ByName(members_of(fields_of(fields)))),
                Style::Tuple => Ok(ConstructModel::ByPosition(fields_of(fields).len())),
                Style::Unit => Err(DeriveError::UnitStruct),
            }
        },
        DataDeclModel::Enum(_) => Err(DeriveError::Enum),
        DataDeclModel::Union => Err(DeriveError::Union),
    }
}

/// Both derivations refuse the same declarations, each for the same reason:
/// a struct without fields, an enum, a union. For every other declaration
/// both generate one call per field, and nothing is generated for a refused
/// one.
pub proof fn lemma_same_refusals(input: DeriveInputModel)
    ensures
        match encode_plan(input) {
            Ok(calls) => calls.len() > 0 && match decode_plan(input) {
                Ok(body) => body.arity() == calls.len(),
                Err(_) => false,
            },
            Err(error) => decode_plan(input) == Err::<ConstructModel, DeriveError>(error),
        },
        encode_plan(input).is_err() <==> match input.data {
            DataDeclModel::Struct(fields) => fields_of(fields).len() == 0,
            DataDeclModel::Enum(_) => true,
            DataDeclModel::Union => true,
        },
{
}

impl DecodeImpl {
    /// The name of the constant that the implementation is generated into.
    pub closed spec fn spec_dummy(&self) -> Seq<char> {
        self.dummy@
    }

    /// The name of the type that the implementation is for.
    pub closed spec fn target(&self) -> Seq<char> {
        self.ident@
    }

    /// The generated body: the calls and the way the record is built.
    pub closed spec fn spec_body(&self) -> ConstructModel {
        self.body@
    }

    /// The number of fields that the implementation reads.
    pub open spec fn arity(&self) -> nat {
        self.spec_body().arity()
    }

    /// Returns the name of the constant that the implementation is
    /// generated into.
    pub fn dummy(&self) -> (name: &String)
        ensures
            name@ == self.spec_dummy(),
    {
        &self.dummy
    }

    /// Returns the name of the type that the implementation is for.
    pub fn ident(&self) -> (name: &String)
        ensures
            name@ == self.target(),
    {
        &self.ident
    }

    /// Returns the generated body.
    pub fn body(&self) -> (body: &Construct)
        ensures
            body@ == self.spec_body(),
    {
        &self.body
    }

    /// Returns the number of generated calls.
    pub fn count(&self) -> (count: usize)
        ensures
            count == self.arity(),
    {
        match &self.body {
            Construct::ByName(members) => members.len(),
            Construct::ByPosition(count) => *count,
        }
    }

    /// Tells whether a whole record stands at the decoder's position: a
    /// field of each of `kinds`, in declaration order, each where the one
    /// before it ends. The kinds are those of the fields of the record type,
    /// which the caller knows; with another number of kinds than the
    /// implementation has calls there is nothing to read.
    pub fn complete(&self, kinds: &[ScTag], decoder: &Decoder<'_>) -> (whole: bool)
        ensures
            whole == (kinds@.len() == self.arity() && parse_all(
                kinds@,
                decoder.remaining(),
            ).is_some()),
    {
        if kinds.len() != self.count() {
            return false;
        }
        let ghost start = decoder.remaining();
        let mut probe: Decoder<'_> = decoder.fork();
        let mut index: usize = 0;
        assert(kinds@.skip(0) =~= kinds@);
        while index < kinds.len()
            invariant
                index <= kinds@.len(),
                start == decoder.remaining(),
                parse_all(kinds@, start).is_some() == parse_all(
                    kinds@.skip(index as int),
                    probe.remaining(),
                ).is_some(),
            decreases kinds@.len() - index,
        {
            let kind: ScTag = kinds[index];
            if !ScValue::complete(kind, &probe) {
                proof {
                    lemma_parse_all_stuck(kinds@, index as int, probe.remaining());
                }
                return false;
            }
            let ghost before = probe.remaining();
            let _ = ScValue::decode(kind, &mut probe);
            proof {
                let taken = Value::parse(kind, before).unwrap().1;
                if parse_all(kinds@.skip(index as int + 1), before.skip(taken as int)).is_some() {
                    assert(kinds@.skip(index as int).drop_first() =~= kinds@.skip(index as int + 1));
                    assert(kinds@.skip(index as int)[0] == kinds@[index as int]);
                } else {
                    if parse_all(kinds@.skip(index as int), before).is_some() {
                        lemma_parse_all_step(kinds@, index as int, before);
                    }
                }
            }
            index = index + 1;
        }
        assert(kinds@.skip(index as int) =~= Seq::<ScTag>::empty());
        true
    }

    /// Runs the generated calls: a field of each of `kinds` is read in
    /// declaration order, each where the one before it ended, and the record
    /// is built from the values. Exactly the bytes of the record are taken.
    pub fn decode(&self, kinds: &[ScTag], decoder: &mut Decoder<'_>) -> (record: Record)
        requires
            kinds@.len() == self.arity(),
            parse_all(kinds@, old(decoder).remaining()).is_some(),
        ensures
            parse_all(kinds@, old(decoder).remaining()) == Some(
                (record@.values, (final(decoder).position() - old(decoder).position()) as nat),
            ),
            record@.style == self.spec_body().style(),
            final(decoder).position() >= old(decoder).position(),
            final(decoder).source() == old(decoder).source(),
            final(decoder).remaining() == old(decoder).remaining().skip(
                final(decoder).position() - old(decoder).position(),
            ),
    {
        let ghost start = decoder.remaining();
        let ghost origin = decoder.position();
        let mut values: Vec<ScValue> = Vec::new();
        let mut index: usize = 0;
        assert(kinds@.skip(0) =~= kinds@);
        assert(start.skip(0) =~= start);
        while index < kinds.len()
            invariant
                index <= kinds@.len(),
                values@.len() == index,
                decoder.source() == old(decoder).source(),
                decoder.position() >= origin,
                origin == old(decoder).position(),
                start == old(decoder).remaining(),
                decoder.remaining() == start.skip(decoder.position() - origin),
                decoder.position() - origin <= start.len(),
                parse_all(kinds@.skip(index as int), decoder.remaining()).is_some(),
                parse_all(kinds@, start).is_some(),
                parse_all(kinds@, start).unwrap().0 == Seq::new(
                    index as nat,
                    |i: int| values@[i]@,
                ) + parse_all(kinds@.skip(index as int), decoder.remaining()).unwrap().0,
                parse_all(kinds@, start).unwrap().1 == (decoder.position() - origin) + parse_all(
                    kinds@.skip(index as int),
                    decoder.remaining(),
                ).unwrap().1,
            decreases kinds@.len() - index,
        {
            let kind: ScTag = kinds[index];
            let ghost before = decoder.remaining();
            let ghost read = Seq::new(index as nat, |i: int| values@[i]@);
            proof {
                lemma_parse_all_step(kinds@, index as int, before);
                lemma_parse_in_range(kind, before);
            }
            let value: ScValue = ScValue::decode(kind, decoder);
            values.push(value);
            proof {
                let taken = Value::parse(kind, before).unwrap().1;
                let rest = parse_all(kinds@.skip(index as int + 1), before.skip(taken as int)).unwrap().0;
                let now = Seq::new((index + 1) as nat, |i: int| values@[i]@);
                assert(now =~= read.push(value@));
                assert(read + (seq![value@] + rest) =~= now + rest);
                assert(decoder.remaining() =~= start.skip(decoder.position() - origin));
            }
            index = index + 1;
        }
        let style: Style = match &self.body {
            Construct::ByName(_) => Style::Struct,
            Construct::ByPosition(_) => Style::Tuple,
        };
        let record = Record { style, values };
        proof {
            assert(kinds@.skip(index as int) =~= Seq::<ScTag>::empty());
            assert(record@.values =~= parse_all(kinds@, start).unwrap().0);
        }
        record
    }
}

/// Generates the body of `decode` for named fields: one call per field, in
/// the order of the fields, each bound to the name of its field.
pub fn expand_map(fields: &[Field]) -> (body: Construct)
    ensures
        body@ == ConstructModel::ByName(members_of(views(fields@))),
{
    Construct::ByName(expand_members(fields))
}

/// Generates the body of `decode` for positional fields: one call per field,
/// in the order of the fields.
pub fn expand_seq(fields: &[Field]) -> (body: Construct)
    ensures
        body@ == ConstructModel::ByPosition(fields@.len()),
{
    Construct::ByPosition(fields.len())
}

/// Generates the body of `decode` for a classified type, or refuses the
/// shape.
pub fn expand_container(container: &Container) -> (body: Result<Construct, DeriveError>)
    ensures
        match body {
            Ok(body) => decode_shape(container@.data) == Ok::<ConstructModel, DeriveError>(body@),
            Err(error) => decode_shape(container@.data) == Err::<ConstructModel, DeriveError>(
                error,
            ),
        },
{
    match &container.data {
        Data::Struct(style, fields) => {
            if fields.len() == 0 {
                Err(DeriveError::UnitStruct)
            } else {
                match style {
                    Style::Struct => Ok(expand_map(fields.as_slice())),
                    Style::Tuple => Ok(expand_seq(fields.as_slice())),
                    Style::Unit => Err(DeriveError::UnitStruct),
                }
            }
        },
        Data::Enum(_) => Err(DeriveError::Enum),
    }
}

/// Derives the implementation of `decode` for the declared type: the calls
/// that read its fields in declaration order, and the construction of the
/// record by name or by position. A struct without fields (with or without
/// braces or parentheses), an enum and a union are refused, and nothing is
/// generated for them.
pub fn derive(input: &DeriveInput) -> (code: Result<DecodeImpl, DeriveError>)
    ensures
        match code {
            Ok(code) => decode_plan(input@) == Ok::<ConstructModel, DeriveError>(
                code.spec_body(),
            ) && code.target() == input@.ident && code.spec_dummy() == "_IMPL_DECODE_FOR_"@
                + input@.ident,
            Err(error) => decode_plan(input@) == Err::<ConstructModel, DeriveError>(error),
        },
{
    let container: Container = match Container::from_ast(input) {
        Ok(container) => container,
        Err(error) => {
            return Err(error);
        },
    };
    let body: Construct = match expand_container(&container) {
        Ok(body) => body,
        Err(error) => {
            return Err(error);
        },
    };
    let dummy: String = String::from_str("_IMPL_DECODE_FOR_").concat(container.ident.as_str());
    Ok(DecodeImpl { dummy, ident: container.ident, body })
}

} // verus!
