//! The derivation of `encode`: one call per field, in declaration order,
//! all writing into one encoder.

use crate::derive::ast::views;
use crate::derive::ast::DataDeclModel;
use crate::derive::ast::DeriveInput;
use crate::derive::ast::DeriveInputModel;
use crate::derive::code::expand_members;
use crate::derive::code::members_of;
use crate::derive::error::DeriveError;
use crate::derive::internal::container::Container;
use crate::derive::internal::data::fields_of;
use crate::derive::internal::data::Data;
use crate::derive::internal::data::DataModel;
use crate::derive::internal::field::Field;
use crate::derive::internal::field::Member;
use crate::derive::internal::field::MemberModel;
use crate::derive::internal::style::Style;
use crate::derive::record::fit_all;
use crate::derive::record::lemma_wire_all_push;
use crate::derive::record::wire_all;
use crate::derive::record::Record;
use crate::encoder::Encoder;
use crate::traits::encode::Encode;
use crate::types::value::Value;
use vstd::prelude::*;
use vstd::string::StringExecFns;

verus! {

/// The generated implementation of `encode` for one record type.
#[derive(Debug, PartialEq, Eq)]
pub struct EncodeImpl {
    dummy: String,
    ident: String,
    calls: Vec<Member>,
}

/// What the shape of a classified type makes of a request for `encode`: the
/// calls for a struct with at least one named or positional field, or the
/// reason why there is nothing to generate.
pub open spec fn encode_shape(data: DataModel) -> Result<Seq<MemberModel>, DeriveError> {
    match data {
        DataModel::Struct(style, fields) => if style == Style::Unit || fields.len() == 0 {
            Err(DeriveError::UnitStruct)
        } else {
            Ok(members_of(fields))
        },
        DataModel::Enum(_) => Err(DeriveError::Enum),
    }
}

/// What a declared type makes of a request for `encode`: the calls to
/// generate, one per field in declaration order, or the reason why the
/// request is refused. A struct without fields, an enum and a union are
/// refused; a struct with at least one field is accepted.
pub open spec fn encode_plan(input: DeriveInputModel) -> Result<Seq<MemberModel>, DeriveError> {
    match input.data {
        DataDeclModel::Struct(fields) => if fields_of(fields).len() == 0 {
            Err(DeriveError::UnitStruct)
        } else {
            Ok(members_of(fields_of(fields)))
        },
        DataDeclModel::Enum(_) => Err(DeriveError::Enum),
        DataDeclModel::Union => Err(DeriveError::Union),
    }
}

impl EncodeImpl {
    /// The name of the constant that the implementation is generated into.
    pub closed spec fn spec_dummy(&self) -> Seq<char> {
        self.dummy@
    }

    /// The name of the type that the implementation is for.
    pub closed spec fn target(&self) -> Seq<char> {
        self.ident@
    }

    /// The generated calls, in the order in which they run.
    pub closed spec fn spec_calls(&self) -> Seq<MemberModel> {
        views(self.calls@)
    }

    /// The number of fields that the implementation writes.
    pub open spec fn arity(&self) -> nat {
        self.spec_calls().len()
    }

    /// Returns the name of the constant that the implementation is
    /// generated into.
    pub fn dummy(&self) -> (name: &String)
        ensures
            name@ == self.spec_dummy(),
    {
        &self.dummy
    }

    /// Returns the name of the type that the implementation is for.
    pub fn ident(&self) -> (name: &String)
        ensures
            name@ == self.target(),
    {
        &self.ident
    }

    /// Returns the generated calls, in the order in which they run.
    pub fn calls(&self) -> (calls: &Vec<Member>)
        ensures
            views(calls@) == self.spec_calls(),
    {
        &self.calls
    }

    /// Tells whether `record` has as many fields as the implementation was
    /// generated for.
    pub fn accepts(&self, record: &Record) -> (accepted: bool)
        ensures
            accepted == (record@.values.len() == self.arity()),
    {
        record.values.len() == self.calls.len()
    }

    /// Runs the generated calls on `record`: each field is appended to
    /// `encoder` in declaration order, and nothing else is written.
    pub fn encode(&self, record: &Record, encoder: &mut Encoder)
        requires
            record@.values.len() == self.arity(),
            fit_all(record@.values),
        ensures
            final(encoder)@ == old(encoder)@ + wire_all(record@.values),
    {
        let ghost start = encoder@;
        let ghost values = record@.values;
        let mut index: usize = 0;
        assert(values.take(0) =~= Seq::<Value>::empty());
        assert(start + wire_all(values.take(0)) =~= start);
        while index < self.calls.len()
            invariant
                index <= self.calls@.len(),
                values == record@.values,
                values.len() == self.calls@.len(),
                fit_all(values),
                encoder@ == start + wire_all(values.take(index as int)),
            decreases self.calls@.len() - index,
        {
            assert(values[index as int].fits());
            record.values[index].encode(encoder);
            proof {
                let done = values.take(index as int);
                lemma_wire_all_push(done, values[index as int]);
                assert(values.take(index as int + 1) =~= done.push(values[index as int]));
                assert(encoder@ =~= start + wire_all(values.take(index as int + 1)));
            }
            index = index + 1;
        }
        assert(values.take(index as int) =~= values);
    }
}

/// Generates the calls that encode `fields`, one per field, in the order of
/// the fields.
pub fn expand_fields(fields: &[Field]) -> (calls: Vec<Member>)
    ensures
        views(calls@) == members_of(views(fields@)),
{
    expand_members(fields)
}

/// Generates the body of `encode` for a classified type, or refuses the
/// shape.
pub fn expand_container(container: &Container) -> (calls: Result<Vec<Member>, DeriveError>)
    ensures
        match calls {
            Ok(calls) => encode_shape(container@.data) == Ok::<Seq<MemberModel>, DeriveError>(
                views(calls@),
            ),
            Err(error) => encode_shape(container@.data) == Err::<Seq<MemberModel>, DeriveError>(
                error,
            ),
        },
{
    match &container.data {
        Data::Struct(style, fields) => {
            if fields.len() == 0 {
                Err(DeriveError::UnitStruct)
            } else {
                match style {
                    Style::Struct => Ok(expand_fields(fields.as_slice())),
                    Style::Tuple => Ok(expand_fields(fields.as_slice())),
                    Style::Unit => Err(DeriveError::UnitStruct),
                }
            }
        },
        Data::Enum(_) => Err(DeriveError::Enum),
    }
}

/// Derives the implementation of `encode` for the declared type: the calls
/// that write its fields in declaration order. A struct without fields
/// (with or without braces or parentheses), an enum and a union are refused,
/// and nothing is generated for them.
pub fn derive(input: &DeriveInput) -> (code: Result<EncodeImpl, DeriveError>)
    ensures
        match code {
            Ok(code) => encode_plan(input@) == Ok::<Seq<MemberModel>, DeriveError>(
                code.spec_calls(),
            ) && code.target() == input@.ident && code.spec_dummy() == "_IMPL_ENCODE_FOR_"@
                + input@.ident,
            Err(error) => encode_plan(input@) == Err::<Seq<MemberModel>, DeriveError>(error),
        },
{
    let container: Container = match Container::from_ast(input) {
        Ok(container) => container,
        Err(error) => {
            return Err(error);
        },
    };
    let calls: Vec<Member> = match expand_container(&container) {
        Ok(calls) => calls,
        Err(error) => {
            return Err(error);
        },
    };
    let dummy: String = String::from_str("_IMPL_ENCODE_FOR_").concat(container.ident.as_str());
    Ok(EncodeImpl { dummy, ident: container.ident, calls })
}

} // verus!
