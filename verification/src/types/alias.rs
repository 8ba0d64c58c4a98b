//! Names for the primitive kinds that std already provides.

use vstd::prelude::*;

verus! {

/// Alias for a smart contract byte vector.
pub type ScBytes = Vec<u8>;

/// Alias for a smart contract integer.
pub type ScInt64 = i64;

/// Alias for a smart contract string.
pub type ScString = String;

} // verus!
