//! Tools for working with smart contract values: a compact binary codec for
//! primitive values and the structural derivation of that codec for records.

pub mod consts;
pub mod contracts;
pub mod decoder;
pub mod derive;
pub mod encoder;
pub mod text;
pub mod traits;
pub mod types;
pub mod unwrap;
pub mod utils;
pub mod wire;
