//! The closed set of primitive kinds, and their host type ids.

use vstd::prelude::*;

verus! {

/// Host type id of an address.
pub const TYPE_ADDRESS: i32 = 1;

/// Host type id of an agent id.
pub const TYPE_AGENT_ID: i32 = 2;

/// Host type id of a byte vector.
pub const TYPE_BYTES: i32 = 3;

/// Host type id of a chain id.
pub const TYPE_CHAIN_ID: i32 = 4;

/// Host type id of a color.
pub const TYPE_COLOR: i32 = 5;

/// Host type id of a hash.
pub const TYPE_HASH: i32 = 6;

/// Host type id of a hash name.
pub const TYPE_HNAME: i32 = 7;

/// Host type id of an integer.
pub const TYPE_INT64: i32 = 8;

/// Host type id of a request id.
pub const TYPE_REQUEST_ID: i32 = 10;

/// Host type id of a string.
pub const TYPE_STRING: i32 = 11;

/// Represents any valid smart contract type id.
#[derive(Clone, Copy, Debug, Hash, PartialEq, Eq, Structural, PartialOrd, Ord)]
pub enum ScTag {
    /// Represents a smart contract address.
    Address,
    /// Represents a smart contract agent id.
    AgentId,
    /// Represents a smart contract byte vector.
    Bytes,
    /// Represents a smart contract chain id.
    ChainId,
    /// Represents a smart contract color.
    Color,
    /// Represents a smart contract hash.
    Hash,
    /// Represents a smart contract hash name.
    Hname,
    /// Represents a smart contract integer.
    Int64,
    /// Represents a smart contract request id.
    RequestId,
    /// Represents a smart contract string.
    String,
}

/// The kind that a host type id stands for, if it stands for one.
pub open spec fn tag_of_id(value: i32) -> Option<ScTag> {
    if value == TYPE_ADDRESS {
        Some(ScTag::Address)
    } else if value == TYPE_AGENT_ID {
        Some(ScTag::AgentId)
    } else if value == TYPE_BYTES {
        Some(ScTag::Bytes)
    } else if value == TYPE_CHAIN_ID {
        Some(ScTag::ChainId)
    } else if value == TYPE_COLOR {
        Some(ScTag::Color)
    } else if value == TYPE_HASH {
        Some(ScTag::Hash)
    } else if value == TYPE_HNAME {
        Some(ScTag::Hname)
    } else if value == TYPE_INT64 {
        Some(ScTag::Int64)
    } else if value == TYPE_REQUEST_ID {
        Some(ScTag::RequestId)
    } else if value == TYPE_STRING {
        Some(ScTag::String)
    } else {
        None
    }
}

impl ScTag {
    /// The number of kinds.
    pub const TOTAL: usize = 10;

    /// The host type id of the kind.
    pub open spec fn id(self) -> i32 {
        match self {
            ScTag::Address => TYPE_ADDRESS,
            ScTag::AgentId => TYPE_AGENT_ID,
            ScTag::Bytes => TYPE_BYTES,
            ScTag::ChainId => TYPE_CHAIN_ID,
            ScTag::Color => TYPE_COLOR,
            ScTag::Hash => TYPE_HASH,
            ScTag::Hname => TYPE_HNAME,
            ScTag::Int64 => TYPE_INT64,
            ScTag::RequestId => TYPE_REQUEST_ID,
            ScTag::String => TYPE_STRING,
        }
    }

    /// Every kind is found again by its host type id, and an id stands for at
    /// most one kind.
    pub proof fn lemma_id_names_the_kind(self, value: i32)
        ensures
            tag_of_id(self.id()) == Some(self),
            tag_of_id(value) == Some(self) <==> self.id() == value,
    {
    }

    /// Decodes an `ScTag` from the given type id.
    pub fn from_type_id(value: i32) -> (tag: Option<Self>)
        ensures
            tag == tag_of_id(value),
    {
        if value == TYPE_ADDRESS {
            Some(ScTag::Address)
        } else if value == TYPE_AGENT_ID {
            Some(ScTag::AgentId)
        } else if value == TYPE_BYTES {
            Some(ScTag::Bytes)
        } else if value == TYPE_CHAIN_ID {
            Some(ScTag::ChainId)
        } else if value == TYPE_COLOR {
            Some(ScTag::Color)
        } else if value == TYPE_HASH {
            Some(ScTag::Hash)
        } else if value == TYPE_HNAME {
            Some(ScTag::Hname)
        } else if value == TYPE_INT64 {
            Some(ScTag::Int64)
        } else if value == TYPE_REQUEST_ID {
            Some(ScTag::RequestId)
        } else if value == TYPE_STRING {
            Some(ScTag::String)
        } else {
            None
        }
    }

    /// Decodes an `ScTag` from a type id that is known to stand for a kind.
    pub fn from_type_id_unchecked(value: i32) -> (tag: Self)
        requires
            tag_of_id(value).is_some(),
        ensures
            Some(tag) == tag_of_id(value),
            tag.id() == value,
    {
        match ScTag::from_type_id(value) {
            Some(tag) => tag,
            None => ScTag::Address,
        }
    }

    /// Returns the host type id of the value.
    pub fn type_id(self) -> (value: i32)
        ensures
            value == self.id(),
    {
        match self {
            ScTag::Address => TYPE_ADDRESS,
            ScTag::AgentId => TYPE_AGENT_ID,
            ScTag::Bytes => TYPE_BYTES,
            ScTag::ChainId => TYPE_CHAIN_ID,
            ScTag::Color => TYPE_COLOR,
            ScTag::Hash => TYPE_HASH,
            ScTag::Hname => TYPE_HNAME,
            ScTag::Int64 => TYPE_INT64,
            ScTag::RequestId => TYPE_REQUEST_ID,
            ScTag::String => TYPE_STRING,
        }
    }
}

} // verus!
