//! A declared type, classified.

use crate::derive::ast::DeriveInput;
use crate::derive::ast::DeriveInputModel;
use crate::derive::error::DeriveError;
use crate::derive::internal::data::data_of;
use crate::derive::internal::data::Data;
use crate::derive::internal::data::DataModel;
use vstd::prelude::*;

verus! {

/// The type that a derivation is asked for: its name and its classified
/// body.
#[derive(Clone, Debug, PartialEq, Eq)]
pub struct Container {
    /// The name of the type.
    pub ident: String,
    /// The classified body of the type.
    pub data: Data,
}

/// What a `Container` holds, as mathematics.
pub struct ContainerModel {
    pub ident: Seq<char>,
    pub data: DataModel,
}

impl View for Container {
    type V = ContainerModel;

    open spec fn view(&self) -> ContainerModel {
        ContainerModel { ident: self.ident@, data: self.data@ }
    }
}

/// The container that a declared type gives; a union gives none.
pub open spec fn container_of(input: DeriveInputModel) -> Option<ContainerModel> {
    match data_of(input.data) {
        Some(data) => Some(ContainerModel { ident: input.ident, data }),
        None => None,
    }
}

impl Container {
    /// Classifies a declared type. A union is refused.
    pub fn from_ast(input: &DeriveInput) -> (made: Result<Self, DeriveError>)
        ensures
            match made {
                Ok(made) => container_of(input@) == Some(made@),
                Err(error) => container_of(input@).is_none() && error == DeriveError::Union,
            },
    {
        match Data::from_ast(&input.data) {
            Ok(data) => Ok(Container { ident: input.ident.clone(), data }),
            Err(error) => Err(error),
        }
    }
}

} // verus!
