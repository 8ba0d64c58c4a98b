//! One variant of an enum.

use crate::derive::ast::VariantDecl;
use crate::derive::ast::VariantDeclModel;
use crate::derive::ast::views;
use crate::derive::internal::data::fields_of;
use crate::derive::internal::data::style_of;
use crate::derive::internal::data::Data;
use crate::derive::internal::field::Field;
use crate::derive::internal::field::FieldModel;
use crate::derive::internal::style::Style;
use vstd::prelude::*;

verus! {

/// A variant with its classified shape and its enumerated fields.
#[derive(Clone, Debug, PartialEq, Eq)]
pub struct Variant {
    /// The name of the variant.
    pub ident: String,
    /// The shape of the variant.
    pub style: Style,
    /// The fields of the variant, in declaration order.
    pub fields: Vec<Field>,
}

/// What a `Variant` holds, as mathematics.
pub struct VariantModel {
    pub ident: Seq<char>,
    pub style: Style,
    pub fields: Seq<FieldModel>,
}

impl View for Variant {
    type V = VariantModel;

    open spec fn view(&self) -> VariantModel {
        VariantModel { ident: self.ident@, style: self.style, fields: views(self.fields@) }
    }
}

/// The variant that the declaration `decl` gives.
pub open spec fn variant_of(decl: VariantDeclModel) -> VariantModel {
    VariantModel { ident: decl.ident, style: style_of(decl.fields), fields: fields_of(decl.fields) }
}

impl Variant {
    /// Classifies the shape of the declared variant and enumerates its
    /// fields.
    pub fn from_ast(variant: &VariantDecl) -> (made: Self)
        ensures
            made@ == variant_of(variant@),
    {
        let ident: String = variant.ident.clone();
        let (style, fields) = Data::expand_struct(&variant.fields);
        Variant { ident, style, fields }
    }
}

} // verus!
