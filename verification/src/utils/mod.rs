//! Helpers for contracts.

pub mod withdraw;
