use scarab::types::tag::TYPE_ADDRESS;
use scarab::types::tag::TYPE_AGENT_ID;
use scarab::types::tag::TYPE_BYTES;
use scarab::types::tag::TYPE_CHAIN_ID;
use scarab::types::tag::TYPE_COLOR;
use scarab::types::tag::TYPE_HASH;
use scarab::types::tag::TYPE_HNAME;
use scarab::types::tag::TYPE_INT64;
use scarab::types::tag::TYPE_REQUEST_ID;
use scarab::types::tag::TYPE_STRING;
use scarab::types::ScTag;

#[test]
fn test_from_type_id() {
    assert_eq!(ScTag::from_type_id(TYPE_ADDRESS), Some(ScTag::Address));
    assert_eq!(ScTag::from_type_id(TYPE_AGENT_ID), Some(ScTag::AgentId));
    assert_eq!(ScTag::from_type_id(TYPE_BYTES), Some(ScTag::Bytes));
    assert_eq!(ScTag::from_type_id(TYPE_CHAIN_ID), Some(ScTag::ChainId));
    assert_eq!(ScTag::from_type_id(TYPE_COLOR), Some(ScTag::Color));
    assert_eq!(ScTag::from_type_id(TYPE_HASH), Some(ScTag::Hash));
    assert_eq!(ScTag::from_type_id(TYPE_HNAME), Some(ScTag::Hname));
    assert_eq!(ScTag::from_type_id(TYPE_INT64), Some(ScTag::Int64));
    assert_eq!(ScTag::from_type_id(TYPE_REQUEST_ID), Some(ScTag::RequestId));
    assert_eq!(ScTag::from_type_id(TYPE_STRING), Some(ScTag::String));

    assert_eq!(ScTag::from_type_id(i32::MAX), None);
    assert_eq!(ScTag::from_type_id(i32::MIN), None);
}

#[test]
fn test_from_type_id_unchecked() {
    assert_eq!(ScTag::from_type_id_unchecked(TYPE_ADDRESS), ScTag::Address);
    assert_eq!(ScTag::from_type_id_unchecked(TYPE_AGENT_ID), ScTag::AgentId);
    assert_eq!(ScTag::from_type_id_unchecked(TYPE_BYTES), ScTag::Bytes);
    assert_eq!(ScTag::from_type_id_unchecked(TYPE_CHAIN_ID), ScTag::ChainId);
    assert_eq!(ScTag::from_type_id_unchecked(TYPE_COLOR), ScTag::Color);
    assert_eq!(ScTag::from_type_id_unchecked(TYPE_HASH), ScTag::Hash);
    assert_eq!(ScTag::from_type_id_unchecked(TYPE_HNAME), ScTag::Hname);
    assert_eq!(ScTag::from_type_id_unchecked(TYPE_INT64), ScTag::Int64);
    assert_eq!(ScTag::from_type_id_unchecked(TYPE_REQUEST_ID), ScTag::RequestId);
    assert_eq!(ScTag::from_type_id_unchecked(TYPE_STRING), ScTag::String);
}

#[test]
fn test_type_id() {
    assert_eq!(ScTag::Address.type_id(), TYPE_ADDRESS);
    assert_eq!(ScTag::AgentId.type_id(), TYPE_AGENT_ID);
    assert_eq!(ScTag::Bytes.type_id(), TYPE_BYTES);
    assert_eq!(ScTag::ChainId.type_id(), TYPE_CHAIN_ID);
    assert_eq!(ScTag::Color.type_id(), TYPE_COLOR);
    assert_eq!(ScTag::Hash.type_id(), TYPE_HASH);
    assert_eq!(ScTag::Hname.type_id(), TYPE_HNAME);
    assert_eq!(ScTag::Int64.type_id(), TYPE_INT64);
    assert_eq!(ScTag::RequestId.type_id(), TYPE_REQUEST_ID);
    assert_eq!(ScTag::String.type_id(), TYPE_STRING);
}

#[test]
fn type_ids_are_distinct_and_unknown_ids_name_no_kind() {
    assert_eq!(ScTag::from_type_id(0), None);
    assert_eq!(ScTag::from_type_id(9), None);
    assert_eq!(ScTag::from_type_id(12), None);
    assert_eq!(ScTag::TOTAL, 10);
}
