//! The three shapes of a list of fields.

use vstd::prelude::*;

verus! {

/// The shape of a struct or of an enum variant.
#[derive(Clone, Copy, Debug, PartialEq, Eq, Structural)]
pub enum Style {
    /// Named fields.
    Struct,
    /// Positional fields.
    Tuple,
    /// No fields.
    Unit,
}

} // verus!
