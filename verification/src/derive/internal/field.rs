//! One enumerated field.

use crate::derive::ast::name_view;
use crate::derive::ast::FieldDecl;
use crate::derive::ast::FieldDeclModel;
use vstd::prelude::*;

verus! {

/// How generated code reaches a field: by its name or by its position.
#[derive(Debug, PartialEq, Eq)]
pub enum Member {
    /// A named field.
    Named(String),
    /// A positional field.
    Unnamed(usize),
}

/// What a `Member` holds, as mathematics.
pub enum MemberModel {
    Named(Seq<char>),
    Unnamed(nat),
}

impl View for Member {
    type V = MemberModel;

    open spec fn view(&self) -> MemberModel {
        match self {
            Member::Named(name) => MemberModel::Named(name@),
            Member::Unnamed(index) => MemberModel::Unnamed(*index as nat),
        }
    }
}

impl Clone for Member {
    fn clone(&self) -> (copy: Self)
        ensures
            copy@ == self@,
    {
        match self {
            Member::Named(name) => Member::Named(name.clone()),
            Member::Unnamed(index) => Member::Unnamed(*index),
        }
    }
}

/// A field together with its place in the declaration.
#[derive(Clone, Debug, PartialEq, Eq)]
pub struct Field {
    /// The position of the field in the declaration, counted from zero.
    pub index: usize,
    /// The name of the field; `None` for a positional field.
    pub ident: Option<String>,
    /// How generated code reaches the field.
    pub member: Member,
}

/// What a `Field` holds, as mathematics.
pub struct FieldModel {
    pub index: nat,
    pub ident: Option<Seq<char>>,
    pub member: MemberModel,
}

impl View for Field {
    type V = FieldModel;

    open spec fn view(&self) -> FieldModel {
        FieldModel {
            index: self.index as nat,
            ident: name_view(self.ident),
            member: self.member@,
        }
    }
}

/// The field that the declaration `decl` gives at position `index`: it is
/// reached by its name where it has one and by its position where it has
/// none.
pub open spec fn field_of(decl: FieldDeclModel, index: nat) -> FieldModel {
    FieldModel {
        index,
        ident: decl.ident,
        member: match decl.ident {
            Some(name) => MemberModel::Named(name),
            None => MemberModel::Unnamed(index),
        },
    }
}

impl Field {
    /// Makes the field of the declaration `field` at position `index`.
    pub fn from_ast(field: &FieldDecl, index: usize) -> (made: Self)
        ensures
            made@ == field_of(field@, index as nat),
    {
        let ident: Option<String> = field.ident.clone();
        let member: Member = match &field.ident {
            Some(name) => Member::Named(name.clone()),
            None => Member::Unnamed(index),
        };
        Field { index, ident, member }
    }
}

} // verus!
