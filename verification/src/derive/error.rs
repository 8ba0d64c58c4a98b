//! Why a derivation was refused.

use vstd::prelude::*;

verus! {

/// The shapes that no derivation is defined for.
#[derive(Clone, Copy, Debug, PartialEq, Eq, Structural)]
pub enum DeriveError {
    /// A struct without fields.
    UnitStruct,
    /// An enum: nothing says how a variant would be told from another on the
    /// wire.
    Enum,
    /// A union.
    Union,
}

impl DeriveError {
    /// Returns the diagnostic for the refused shape.
    pub fn message(&self) -> (text: &'static str)
        ensures
            text@ == match *self {
                DeriveError::UnitStruct => "cannot derive for unit-shaped records"@,
                DeriveError::Enum => "cannot derive for variant records"@,
                DeriveError::Union => "cannot derive for unions"@,
            },
    {
        match self {
            DeriveError::UnitStruct => "cannot derive for unit-shaped records",
            DeriveError::Enum => "cannot derive for variant records",
            DeriveError::Union => "cannot derive for unions",
        }
    }
}

} // verus!
