//! The structural derivation of the codec for record types: from the
//! declaration of a record to the calls that encode and decode it, one per
//! field, in declaration order.

pub mod ast;
pub mod code;
pub mod decode;
pub mod encode;
pub mod error;
pub mod internal;
pub mod record;
