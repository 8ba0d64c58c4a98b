//! Values that callers hand to the core contracts of a chain, and the rules
//! that are checked before a contract is called.

pub mod accounts;
pub mod blob;
pub mod erc20;
pub mod eventlog;
pub mod root;
