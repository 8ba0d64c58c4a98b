//! Commonly used types.

pub mod alias;
pub mod ident;
pub mod tag;
pub mod value;

pub use self::alias::ScBytes;
pub use self::alias::ScInt64;
pub use self::alias::ScString;
pub use self::ident::Ident;
pub use self::ident::ScAddress;
pub use self::ident::ScAgentId;
pub use self::ident::ScChainId;
pub use self::ident::ScColor;
pub use self::ident::ScHash;
pub use self::ident::ScHname;
pub use self::ident::ScRequestId;
pub use self::tag::ScTag;
pub use self::value::ScValue;
pub use self::value::Value;
