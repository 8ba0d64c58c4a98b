//! Numbers as bytes, and arithmetic that never overflows.

pub mod danger;
pub mod integer;
