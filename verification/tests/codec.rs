use scarab::decoder::Decoder;
use scarab::encoder::Encoder;
use scarab::traits::encode::Decode;
use scarab::traits::encode::Encode;
use scarab::types::ScHash;
use scarab::types::ScTag;
use scarab::types::ScValue;

#[test]
fn int64_is_eight_little_endian_bytes() {
    assert_eq!(10i64.to_bytes(), vec![0x0A, 0, 0, 0, 0, 0, 0, 0]);
    assert_eq!((-1i64).to_bytes(), vec![0xFF; 8]);
    assert_eq!(i64::MIN.to_bytes(), vec![0, 0, 0, 0, 0, 0, 0, 0x80]);
    assert_eq!(i64::MAX.to_bytes(), vec![0xFF, 0xFF, 0xFF, 0xFF, 0xFF, 0xFF, 0xFF, 0x7F]);
    assert_eq!(0x0102030405060708i64.to_bytes(), vec![8, 7, 6, 5, 4, 3, 2, 1]);
}

#[test]
fn int64_round_trip() {
    for value in [0i64, 1, -1, 20, -20, i64::MIN, i64::MAX, 0x0102030405060708] {
        assert_eq!(i64::from_bytes(&value.to_bytes()), value);
    }
}

#[test]
fn bytes_are_length_prefixed() {
    let value: Vec<u8> = vec![0xAA, 0xBB, 0xCC];
    assert_eq!(value.to_bytes(), vec![3, 0, 0, 0, 0xAA, 0xBB, 0xCC]);
    assert_eq!(Vec::<u8>::from_bytes(&value.to_bytes()), value);
    let long: Vec<u8> = vec![7; 300];
    let wire = long.to_bytes();
    assert_eq!(&wire[..4], &[0x2C, 0x01, 0, 0]);
    assert_eq!(wire.len(), 304);
    assert_eq!(Vec::<u8>::from_bytes(&wire), long);
}

#[test]
fn string_is_length_prefixed_utf8() {
    let value = String::from("hi");
    assert_eq!(value.to_bytes(), vec![2, 0, 0, 0, 0x68, 0x69]);
    assert_eq!(String::from_bytes(&value.to_bytes()), value);
    let wide = String::from("h\u{e9}\u{20ac}");
    assert_eq!(wide.to_bytes(), vec![6, 0, 0, 0, 0x68, 0xC3, 0xA9, 0xE2, 0x82, 0xAC]);
    assert_eq!(String::from_bytes(&wide.to_bytes()), wide);
    assert_eq!("hi".to_bytes(), value.to_bytes());
}

#[test]
fn malformed_text_is_repaired() {
    let wire: Vec<u8> = vec![2, 0, 0, 0, 0x68, 0xFF];
    assert_eq!(String::from_bytes(&wire), String::from("h\u{FFFD}"));
}

#[test]
fn empty_payloads_take_only_the_prefix() {
    let wire: Vec<u8> = vec![0, 0, 0, 0, 9, 9];
    let mut decoder = Decoder::new(&wire);
    assert_eq!(Vec::<u8>::decode(&mut decoder), Vec::<u8>::new());
    assert_eq!(decoder.left(), 2);
    let mut decoder = Decoder::new(&wire);
    assert_eq!(String::decode(&mut decoder), String::new());
    assert_eq!(decoder.left(), 2);
    assert_eq!(Vec::<u8>::new().to_bytes(), vec![0, 0, 0, 0]);
    assert_eq!(String::new().to_bytes(), vec![0, 0, 0, 0]);
}

#[test]
fn identifiers_have_no_prefix() {
    let raw: Vec<u8> = (0u8..32).collect();
    let hash = ScHash::from_bytes(&raw);
    assert_eq!(Encode::to_bytes(&hash), raw);
    assert_eq!(<ScHash as Decode>::from_bytes(&raw), hash);
    assert_eq!(hash.to_bytes(), &raw[..]);
}

#[test]
fn encoder_appends_in_call_order() {
    let mut encoder = Encoder::new();
    assert_eq!(encoder.data(), Vec::<u8>::new());
    10i64.encode(&mut encoder);
    20i64.encode(&mut encoder);
    assert_eq!(
        encoder.data(),
        vec![0x0A, 0, 0, 0, 0, 0, 0, 0, 0x14, 0, 0, 0, 0, 0, 0, 0]
    );
    encoder.raw(&[1, 2]);
    assert_eq!(encoder.data().len(), 18);
    assert_eq!(&encoder.data()[16..], &[1, 2]);
}

#[test]
fn complete_tells_truncated_input() {
    let wire = (-1i64).to_bytes();
    assert!(i64::complete(&Decoder::new(&wire)));
    assert!(!i64::complete(&Decoder::new(&wire[..7])));
    let text = String::from("hi").to_bytes();
    assert!(String::complete(&Decoder::new(&text)));
    assert!(!String::complete(&Decoder::new(&text[..5])));
    assert!(!String::complete(&Decoder::new(&text[..3])));
    assert!(!ScValue::complete(ScTag::Hash, &Decoder::new(&[0u8; 31])));
    assert!(ScValue::complete(ScTag::Hash, &Decoder::new(&[0u8; 32])));
}

#[test]
fn values_round_trip_by_tag() {
    let values = vec![
        ScValue::Int64(-42),
        ScValue::Bytes(vec![1, 2, 3]),
        ScValue::String(String::from("scarab")),
        ScValue::Hash(ScHash::from_bytes(&[7u8; 32])),
    ];
    for value in values {
        let (tag, bytes) = value.to_bytes();
        assert_eq!(tag, value.tag());
        assert_eq!(bytes, value.to_untagged_bytes());
        assert_eq!(ScValue::from_bytes(tag, &bytes), value);
    }
}

#[test]
fn values_convert_from_their_kinds() {
    assert_eq!(ScValue::from(7i64), ScValue::Int64(7));
    assert_eq!(ScValue::from(vec![1u8, 2]), ScValue::Bytes(vec![1, 2]));
    assert_eq!(ScValue::from(String::from("x")), ScValue::String(String::from("x")));
    let hash = ScHash::filled(3);
    assert_eq!(ScValue::from(hash), ScValue::Hash(hash));
    assert!(ScValue::from(hash).is_hash());
    assert!(!ScValue::from(hash).is_color());
    assert!(ScValue::from(7i64).is_int64());
    assert!(ScValue::from(vec![1u8]).is_bytes());
    assert!(ScValue::from(String::new()).is_string());
    assert!(ScValue::from(scarab::types::ScColor::filled(1)).is_color());
    assert!(ScValue::from(scarab::types::ScAddress::filled(1)).is_address());
    assert!(ScValue::from(scarab::types::ScAgentId::filled(1)).is_agent_id());
    assert!(ScValue::from(scarab::types::ScChainId::filled(1)).is_chain_id());
    assert!(ScValue::from(scarab::types::ScHname::filled(1)).is_hname());
    assert!(ScValue::from(scarab::types::ScRequestId::filled(1)).is_request_id());
    assert!(ScValue::from(7i64).is_encodable());
    assert!(ScValue::from(vec![0u8; 100]).is_encodable());
}

#[test]
fn every_kind_round_trips() {
    let values = vec![
        ScValue::Address(scarab::types::ScAddress::filled(1)),
        ScValue::AgentId(scarab::types::ScAgentId::filled(2)),
        ScValue::Bytes(vec![3; 3]),
        ScValue::ChainId(scarab::types::ScChainId::filled(4)),
        ScValue::Color(scarab::types::ScColor::filled(5)),
        ScValue::Hash(ScHash::filled(6)),
        ScValue::Hname(scarab::types::ScHname::filled(7)),
        ScValue::Int64(8),
        ScValue::RequestId(scarab::types::ScRequestId::filled(9)),
        ScValue::String(String::from("ten")),
    ];
    let sizes = [33, 37, 7, 33, 32, 32, 4, 8, 34, 7];
    for (value, size) in values.iter().zip(sizes) {
        let bytes = value.to_untagged_bytes();
        assert_eq!(bytes.len(), size);
        let mut longer = bytes.clone();
        longer.extend_from_slice(&[0xEE, 0xEE]);
        let mut decoder = Decoder::new(&longer);
        assert!(ScValue::complete(value.tag(), &decoder));
        assert_eq!(&ScValue::decode(value.tag(), &mut decoder), value);
        assert_eq!(decoder.left(), 2);
        assert!(!ScValue::complete(value.tag(), &Decoder::new(&bytes[..size - 1])));
    }
}

#[test]
fn decoder_cursor() {
    let data = [1u8, 2, 3, 4, 5];
    let mut decoder = Decoder::new(&data);
    assert_eq!(decoder.left(), 5);
    assert_eq!(decoder.peek(2), &[1, 2]);
    assert_eq!(decoder.left(), 5);
    assert_eq!(decoder.take(2), &[1, 2]);
    let mut fork = decoder.fork();
    assert_eq!(fork.take(3), &[3, 4, 5]);
    assert_eq!(fork.left(), 0);
    assert_eq!(decoder.left(), 3);
    assert_eq!(decoder.take(0), &[] as &[u8]);
    assert_eq!(decoder.take(1), &[3]);
}
