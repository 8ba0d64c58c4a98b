//! A fungible token: its settings, its events and the rules of its ledger.

pub mod events;
pub mod impls;

pub use self::events::Approval;
pub use self::events::Transfer;
pub use self::impls::Token;
