//! What a derivation makes of a declaration before it generates anything:
//! the classified shape and the enumerated fields.

pub mod container;
pub mod data;
pub mod field;
pub mod style;
pub mod variant;

pub use self::container::Container;
pub use self::data::Data;
pub use self::field::Field;
pub use self::field::Member;
pub use self::style::Style;
pub use self::variant::Variant;
