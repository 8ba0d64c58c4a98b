//! The declaration of a type as a derivation receives it: its name and the
//! shape of its body. Of a field only the name is kept, which is all that a
//! derivation reads: the type of a field is known where the field is encoded
//! or decoded, and is never written down.

use vstd::prelude::*;

verus! {

/// The views of the items of a sequence, in order.
pub open spec fn views<T: View>(items: Seq<T>) -> Seq<T::V> {
    Seq::new(items.len(), |i: int| items[i]@)
}

/// The view of an optional name.
pub open spec fn name_view(name: Option<String>) -> Option<Seq<char>> {
    match name {
        Some(name) => Some(name@),
        None => None,
    }
}

/// A field as it is declared: its name, if it has one.
#[derive(Clone, Debug, PartialEq, Eq)]
pub struct FieldDecl {
    /// The name of the field; `None` for a positional field.
    pub ident: Option<String>,
}

/// What a `FieldDecl` holds, as mathematics.
pub struct FieldDeclModel {
    pub ident: Option<Seq<char>>,
}

impl View for FieldDecl {
    type V = FieldDeclModel;

    open spec fn view(&self) -> FieldDeclModel {
        FieldDeclModel { ident: name_view(self.ident) }
    }
}

/// The fields of a struct or of an enum variant, in declaration order.
#[derive(Clone, Debug, PartialEq, Eq)]
pub enum Fields {
    /// Named fields, in braces.
    Named(Vec<FieldDecl>),
    /// Positional fields, in parentheses.
    Unnamed(Vec<FieldDecl>),
    /// No fields at all.
    Unit,
}

/// What a `Fields` holds, as mathematics.
pub enum FieldsModel {
    Named(Seq<FieldDeclModel>),
    Unnamed(Seq<FieldDeclModel>),
    Unit,
}

impl View for Fields {
    type V = FieldsModel;

    open spec fn view(&self) -> FieldsModel {
        match self {
            Fields::Named(fields) => FieldsModel::Named(views(fields@)),
            Fields::Unnamed(fields) => FieldsModel::Unnamed(views(fields@)),
            Fields::Unit => FieldsModel::Unit,
        }
    }
}

/// A variant of an enum as it is declared.
#[derive(Clone, Debug, PartialEq, Eq)]
pub struct VariantDecl {
    /// The name of the variant.
    pub ident: String,
    /// The fields of the variant.
    pub fields: Fields,
}

/// What a `VariantDecl` holds, as mathematics.
pub struct VariantDeclModel {
    pub ident: Seq<char>,
    pub fields: FieldsModel,
}

impl View for VariantDecl {
    type V = VariantDeclModel;

    open spec fn view(&self) -> VariantDeclModel {
        VariantDeclModel { ident: self.ident@, fields: self.fields@ }
    }
}

/// The body of a declared type.
#[derive(Clone, Debug, PartialEq, Eq)]
pub enum DataDecl {
    /// A struct with its fields.
    Struct(Fields),
    /// An enum with its variants.
    Enum(Vec<VariantDecl>),
    /// An untagged union.
    Union,
}

/// What a `DataDecl` holds, as mathematics.
pub enum DataDeclModel {
    Struct(FieldsModel),
    Enum(Seq<VariantDeclModel>),
    Union,
}

impl View for DataDecl {
    type V = DataDeclModel;

    open spec fn view(&self) -> DataDeclModel {
        match self {
            DataDecl::Struct(fields) => DataDeclModel::Struct(fields@),
            DataDecl::Enum(variants) => DataDeclModel::Enum(views(variants@)),
            DataDecl::Union => DataDeclModel::Union,
        }
    }
}

/// A declared type: the input of a derivation.
#[derive(Clone, Debug, PartialEq, Eq)]
pub struct DeriveInput {
    /// The name of the type.
    pub ident: String,
    /// The body of the type.
    pub data: DataDecl,
}

/// What a `DeriveInput` holds, as mathematics.
pub struct DeriveInputModel {
    pub ident: Seq<char>,
    pub data: DataDeclModel,
}

impl View for DeriveInput {
    type V = DeriveInputModel;

    open spec fn view(&self) -> DeriveInputModel {
        DeriveInputModel { ident: self.ident@, data: self.data@ }
    }
}

} // verus!
