//! The chain account ledger.

use vstd::prelude::*;

verus! {

/// A simple wrapper around the core accounts contract.
#[derive(Clone, Copy, Debug)]
pub struct Accounts;

impl Accounts {
    /// Returns the name of the contract.
    pub fn name() -> (name: &'static str)
        ensures
            name@ == "accounts"@,
    {
        "accounts"
    }

    /// Returns the description of the contract.
    pub fn description() -> (text: &'static str)
        ensures
            text@ == "Chain account ledger contract"@,
    {
        "Chain account ledger contract"
    }
}

} // verus!
