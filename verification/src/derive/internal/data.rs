//! The classified body of a declared type.

use crate::derive::ast::views;
use crate::derive::ast::DataDecl;
use crate::derive::ast::DataDeclModel;
use crate::derive::ast::FieldDecl;
use crate::derive::ast::FieldDeclModel;
use crate::derive::ast::Fields;
use crate::derive::ast::FieldsModel;
use crate::derive::ast::VariantDecl;
use crate::derive::ast::VariantDeclModel;
use crate::derive::error::DeriveError;
use crate::derive::internal::field::field_of;
use crate::derive::internal::field::Field;
use crate::derive::internal::field::FieldModel;
use crate::derive::internal::style::Style;
use crate::derive::internal::variant::variant_of;
use crate::derive::internal::variant::Variant;
use crate::derive::internal::variant::VariantModel;
use vstd::prelude::*;

verus! {

/// The body of a type that a derivation may be asked for.
#[derive(Clone, Debug, PartialEq, Eq)]
pub enum Data {
    /// A struct: its shape and its fields, in declaration order.
    Struct(Style, Vec<Field>),
    /// An enum: its variants, in declaration order.
    Enum(Vec<Variant>),
}

/// What a `Data` holds, as mathematics.
pub enum DataModel {
    Struct(Style, Seq<FieldModel>),
    Enum(Seq<VariantModel>),
}

impl View for Data {
    type V = DataModel;

    open spec fn view(&self) -> DataModel {
        match self {
            Data::Struct(style, fields) => DataModel::Struct(*style, views(fields@)),
            Data::Enum(variants) => DataModel::Enum(views(variants@)),
        }
    }
}

/// The declared fields, each with its position: the field at position `i`
/// is made of the declaration at position `i`.
pub open spec fn enumerate(decls: Seq<FieldDeclModel>) -> Seq<FieldModel> {
    Seq::new(decls.len(), |i: int| field_of(decls[i], i as nat))
}

/// The shape of a list of fields.
pub open spec fn style_of(fields: FieldsModel) -> Style {
    match fields {
        FieldsModel::Named(_) => Style::Struct,
        FieldsModel::Unnamed(_) => Style::Tuple,
        FieldsModel::Unit => Style::Unit,
    }
}

/// The enumerated fields of a list of fields; none for the unit shape.
pub open spec fn fields_of(fields: FieldsModel) -> Seq<FieldModel> {
    match fields {
        FieldsModel::Named(decls) => enumerate(decls),
        FieldsModel::Unnamed(decls) => enumerate(decls),
        FieldsModel::Unit => Seq::<FieldModel>::empty(),
    }
}

/// The variants that the declared variants give, in declaration order.
pub open spec fn variants_of(decls: Seq<VariantDeclModel>) -> Seq<VariantModel> {
    Seq::new(decls.len(), |i: int| variant_of(decls[i]))
}

/// The classified body that a declared body gives; a union gives none.
pub open spec fn data_of(data: DataDeclModel) -> Option<DataModel> {
    match data {
        DataDeclModel::Struct(fields) => Some(
            DataModel::Struct(style_of(fields), fields_of(fields)),
        ),
        DataDeclModel::Enum(variants) => Some(DataModel::Enum(variants_of(variants))),
        DataDeclModel::Union => None,
    }
}

impl Data {
    /// Classifies a declared body. A union is refused; a struct or an enum
    /// of any shape is accepted here.
    pub fn from_ast(data: &DataDecl) -> (made: Result<Self, DeriveError>)
        ensures
            match made {
                Ok(made) => data_of(data@) == Some(made@),
                Err(error) => data_of(data@).is_none() && error == DeriveError::Union,
            },
    {
        match data {
            DataDecl::Struct(fields) => {
                let (style, fields) = Self::expand_struct(fields);
                Ok(Data::Struct(style, fields))
            },
            DataDecl::Enum(variants) => Ok(Data::Enum(Self::expand_enum(variants))),
            DataDecl::Union => Err(DeriveError::Union),
        }
    }

    /// Classifies the shape of a list of fields and enumerates them.
    pub fn expand_struct(fields: &Fields) -> (made: (Style, Vec<Field>))
        ensures
            made.0 == style_of(fields@),
            views(made.1@) == fields_of(fields@),
    {
        match fields {
            Fields::Named(named) => (Style::Struct, Self::expand_fields(named.as_slice())),
            Fields::Unnamed(unnamed) => (Style::Tuple, Self::expand_fields(unnamed.as_slice())),
            Fields::Unit => {
                let none: Vec<Field> = Vec::new();
                assert(views(none@) =~= Seq::<FieldModel>::empty());
                (Style::Unit, none)
            },
        }
    }

    /// Turns the declared variants into variants, in declaration order.
    pub fn expand_enum(variants: &Vec<VariantDecl>) -> (made: Vec<Variant>)
        ensures
            views(made@) == variants_of(views(variants@)),
    {
        let mut made: Vec<Variant> = Vec::new();
        let mut index: usize = 0;
        while index < variants.len()
            invariant
                index <= variants@.len(),
                made@.len() == index,
                forall|i: int| 0 <= i < index ==> (#[trigger] made@[i])@ == variant_of(variants@[i]@),
            decreases variants@.len() - index,
        {
            made.push(Variant::from_ast(&variants[index]));
            index = index + 1;
        }
        assert(views(made@) =~= variants_of(views(variants@)));
        made
    }

    /// Enumerates the declared fields in declaration order: the field at
    /// position `i` comes from the declaration at position `i` and carries
    /// `i` as its index.
    pub fn expand_fields(fields: &[FieldDecl]) -> (made: Vec<Field>)
        ensures
            views(made@) == enumerate(views(fields@)),
    {
        let mut made: Vec<Field> = Vec::new();
        let mut index: usize = 0;
        while index < fields.len()
            invariant
                index <= fields@.len(),
                made@.len() == index,
                forall|i: int|
                    0 <= i < index ==> (#[trigger] made@[i])@ == field_of(fields@[i]@, i as nat),
            decreases fields@.len() - index,
        {
            made.push(Field::from_ast(&fields[index], index));
            index = index + 1;
        }
        assert(views(made@) =~= enumerate(views(fields@)));
        made
    }
}

} // verus!
