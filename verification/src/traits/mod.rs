//! The capabilities that values of the codec share.

pub mod array;
pub mod color;
pub mod encode;
pub mod hash;
pub mod math;
pub mod proxy;
pub mod uint;
pub mod zero;
