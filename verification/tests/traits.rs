use scarab::traits::array::Array;
use scarab::traits::array::IntoIter;
use scarab::traits::array::Iter;
use scarab::traits::color::ColorExt;
use scarab::traits::hash::HashExt;
use scarab::traits::math::danger::UnsafeMath;
use scarab::traits::math::integer::Integer;
use scarab::traits::math::integer::ToInteger;
use scarab::traits::proxy::Proxy;
use scarab::traits::proxy::ProxyMut;
use scarab::traits::uint::ToUint;
use scarab::traits::zero::Zero;
use scarab::types::ScAddress;
use scarab::types::ScAgentId;
use scarab::types::ScChainId;
use scarab::types::ScColor;
use scarab::types::ScHash;
use scarab::types::ScHname;
use scarab::types::ScRequestId;
use scarab::unwrap::Unwrap;
use scarab::wire::of_pattern;
use scarab::wire::pattern_of;
use scarab::wire::read_le;
use scarab::wire::write_le;

#[test]
fn integers_encode_little_endian() {
    assert_eq!(Integer::encode(&0x12u8), vec![0x12]);
    assert_eq!(Integer::encode(&0x1234u16), vec![0x34, 0x12]);
    assert_eq!(Integer::encode(&0x12345678u32), vec![0x78, 0x56, 0x34, 0x12]);
    assert_eq!(
        Integer::encode(&0x0102030405060708u64),
        vec![8, 7, 6, 5, 4, 3, 2, 1]
    );
    assert_eq!(Integer::encode(&-1i8), vec![0xFF]);
    assert_eq!(Integer::encode(&-2i16), vec![0xFE, 0xFF]);
    assert_eq!(Integer::encode(&i32::MIN), vec![0, 0, 0, 0x80]);
    assert_eq!(Integer::encode(&-1i64), vec![0xFF; 8]);
    assert_eq!(u64::MAX.encode_vec(), vec![0xFF; 8]);
}

#[test]
fn integers_decode_only_their_own_width() {
    assert_eq!(<u8 as Integer>::decode(&[0x12]), Some(0x12));
    assert_eq!(<u8 as Integer>::decode(&[]), None);
    assert_eq!(<u16 as Integer>::decode(&[0x34, 0x12]), Some(0x1234));
    assert_eq!(<u16 as Integer>::decode(&[0x34]), None);
    assert_eq!(<u32 as Integer>::decode(&[0x78, 0x56, 0x34, 0x12]), Some(0x12345678));
    assert_eq!(<u32 as Integer>::decode(&[0; 5]), None);
    assert_eq!(<u64 as Integer>::decode(&[0xFF; 8]), Some(u64::MAX));
    assert_eq!(<i8 as Integer>::decode(&[0x80]), Some(i8::MIN));
    assert_eq!(<i16 as Integer>::decode(&[0xFE, 0xFF]), Some(-2));
    assert_eq!(<i32 as Integer>::decode(&[0xFF, 0xFF, 0xFF, 0x7F]), Some(i32::MAX));
    assert_eq!(<i64 as Integer>::decode(&[0, 0, 0, 0, 0, 0, 0, 0x80]), Some(i64::MIN));
    assert_eq!(<i64 as Integer>::decode(&[0; 7]), None);
    assert_eq!(<i64 as Integer>::decode_vec(vec![0xFF; 8]), Some(-1));
}

#[test]
fn integers_round_trip() {
    for value in [i16::MIN, -1, 0, 1, i16::MAX] {
        assert_eq!(<i16 as Integer>::decode(&Integer::encode(&value)), Some(value));
    }
    for value in [i32::MIN, -1, 0, 1, i32::MAX] {
        assert_eq!(<i32 as Integer>::decode(&Integer::encode(&value)), Some(value));
    }
    for value in [0u32, 1, 0xFF, 0x100, u32::MAX] {
        assert_eq!(<u32 as Integer>::decode(&Integer::encode(&value)), Some(value));
    }
    for value in [i8::MIN, -1, 0, 1, i8::MAX] {
        assert_eq!(<i8 as Integer>::decode(&Integer::encode(&value)), Some(value));
    }
}

#[test]
fn little_endian_helpers() {
    assert_eq!(write_le(0x0102, 2), vec![2, 1]);
    assert_eq!(write_le(0x0102, 4), vec![2, 1, 0, 0]);
    assert_eq!(write_le(0x0102, 1), vec![2]);
    assert_eq!(write_le(7, 0), Vec::<u8>::new());
    assert_eq!(read_le(&[2, 1]), 0x0102);
    assert_eq!(read_le(&[]), 0);
    assert_eq!(read_le(&[0xFF; 8]), u64::MAX);
    assert_eq!(pattern_of(-1, 1), 0xFF);
    assert_eq!(pattern_of(-1, 2), 0xFFFF);
    assert_eq!(pattern_of(-1, 4), 0xFFFF_FFFF);
    assert_eq!(pattern_of(-1, 8), u64::MAX);
    assert_eq!(pattern_of(i64::MIN, 8), 0x8000_0000_0000_0000);
    assert_eq!(pattern_of(5, 4), 5);
    assert_eq!(of_pattern(0xFF, 1), -1);
    assert_eq!(of_pattern(0x7F, 1), 127);
    assert_eq!(of_pattern(0x8000, 2), -32768);
    assert_eq!(of_pattern(u64::MAX, 8), -1);
    assert_eq!(of_pattern(0x8000_0000_0000_0000, 8), i64::MIN);
}

#[test]
fn bytes_to_integer() {
    let bytes: Vec<u8> = vec![0x34, 0x12];
    assert_eq!(bytes.to_integer::<u16>(), Some(0x1234));
    assert_eq!(bytes.to_integer::<u32>(), None);
    let held: Option<Vec<u8>> = Some(vec![1, 0, 0, 0]);
    assert_eq!(held.to_integer::<u32>(), Some(1));
    assert_eq!(held.to_integer::<u64>(), None);
    let none: Option<Vec<u8>> = None;
    assert_eq!(none.to_integer::<u32>(), None);
}

#[test]
fn proxy_to_uint() {
    let held: Option<Vec<u8>> = Some(vec![0x34, 0x12]);
    assert_eq!(ToUint::<u16>::to_uint(&held), Some(0x1234));
    assert_eq!(ToUint::<u32>::to_uint(&held), None);
    assert_eq!(ToUint::<u64>::to_uint(&held), None);
    let wide: Option<Vec<u8>> = Some(vec![1, 2, 3, 4, 5, 6, 7, 8]);
    assert_eq!(ToUint::<u64>::to_uint(&wide), Some(0x0807060504030201));
    let none: Option<Vec<u8>> = None;
    assert_eq!(ToUint::<u16>::to_uint(&none), None);
    assert_eq!(
        <Option<Vec<u8>> as ToUint<u32>>::parse(vec![0x78, 0x56, 0x34, 0x12]),
        Some(0x12345678)
    );
    assert_eq!(<Option<Vec<u8>> as ToUint<u32>>::parse(vec![]), None);
}

#[test]
fn proxies_hold_or_lack_a_value() {
    let mut slot: Option<i64> = None;
    assert!(!slot.has());
    assert_eq!(slot.get(), 0);
    assert_eq!(slot.opt(), None);
    slot.set(&7);
    assert!(slot.has());
    assert_eq!(slot.get(), 7);
    assert_eq!(slot.opt(), Some(7));
    let mut bytes: Option<Vec<u8>> = None;
    assert_eq!(Proxy::get(&bytes), Vec::<u8>::new());
    bytes.set(&vec![1, 2]);
    assert_eq!(bytes.opt(), Some(vec![1, 2]));
}

#[test]
fn arrays_and_iterators() {
    let array: Vec<Option<i64>> = vec![Some(3), None, Some(-5)];
    assert_eq!(Array::len(&array), 3);
    assert!(!Array::is_empty(&array));
    assert_eq!(Array::get(&array, 0), 3);
    assert_eq!(Array::get(&array, 1), 0);
    assert_eq!(Array::to_vec(&array), vec![3, 0, -5]);

    let mut iter = Array::iter(&array);
    let mut seen = Vec::new();
    while let Some(value) = iter.next() {
        seen.push(value);
    }
    assert_eq!(seen, vec![3, 0, -5]);
    assert_eq!(iter.next(), None);

    let mut fresh = Iter::new(&array);
    fresh.step();
    let mut copy = fresh.clone();
    assert_eq!(fresh.next(), Some(0));
    assert_eq!(copy.next(), Some(0));
    assert_eq!(copy.next(), Some(-5));
    assert_eq!(copy.next(), None);

    let mut owned = IntoIter::new(array);
    owned.step();
    owned.step();
    assert_eq!(owned.next(), Some(-5));
    assert_eq!(owned.next(), None);

    let empty: Vec<Option<i64>> = Vec::new();
    assert!(Array::is_empty(&empty));
    assert_eq!(Array::into_iter(empty).next(), None);
}

#[test]
fn zero_of_each_identifier() {
    assert!(Zero::is_zero(&<ScAddress as Zero>::zero()));
    assert!(Zero::is_zero(&<ScAgentId as Zero>::zero()));
    assert!(Zero::is_zero(&<ScChainId as Zero>::zero()));
    assert!(Zero::is_zero(&<ScHash as Zero>::zero()));
    assert!(Zero::is_zero(&<ScRequestId as Zero>::zero()));
    assert_eq!(<ScHash as Zero>::zero().to_bytes(), &[0u8; 32]);
    let mut raw = [0u8; 32];
    raw[31] = 1;
    assert!(!Zero::is_zero(&ScHash::from_bytes(&raw)));
}

#[test]
fn hash_extensions() {
    assert_eq!(<ScAddress as HashExt<33>>::size(), 33);
    assert_eq!(<ScAgentId as HashExt<37>>::size(), 37);
    assert_eq!(<ScChainId as HashExt<33>>::size(), 33);
    assert_eq!(<ScHash as HashExt<32>>::size(), 32);
    assert_eq!(<ScRequestId as HashExt<34>>::size(), 34);
    assert_eq!(<ScHname as HashExt<4>>::size(), 4);
    let raw: Vec<u8> = (1u8..=34).collect();
    let id = <ScRequestId as HashExt<34>>::import(&raw);
    assert_eq!(HashExt::export(&id), &raw[..]);
    assert!(!HashExt::is_zero(&id));
    assert!(HashExt::is_zero(&<ScRequestId as HashExt<34>>::zero()));
    assert!(id.same(&ScRequestId::from_bytes(&raw)));
    assert!(!id.same(&<ScRequestId as HashExt<34>>::zero()));
    assert_eq!(ScHash::filled(0xAB).to_bytes(), &[0xABu8; 32]);
}

#[test]
fn standard_colors() {
    let iota = ScColor::filled(0x00);
    let mint = ScColor::filled(0xFF);
    let mut raw = [0u8; 32];
    raw[3] = 9;
    let custom = ScColor::from_bytes(&raw);
    assert!(iota.is_iota() && !iota.is_mint() && !iota.is_custom());
    assert!(!mint.is_iota() && mint.is_mint() && !mint.is_custom());
    assert!(!custom.is_iota() && !custom.is_mint() && custom.is_custom());
    assert_eq!(iota.name(), Some("IOTA"));
    assert_eq!(mint.name(), Some("MINT"));
    assert_eq!(custom.name(), None);
}

#[test]
fn saturating_math() {
    let mut value: i64 = 5;
    value.inc_value(3);
    assert_eq!(value, 8);
    value.dec_value(10);
    assert_eq!(value, -2);
    value = i64::MAX - 1;
    value.inc_value(5);
    assert_eq!(value, i64::MAX);
    value.inc_value(-1);
    assert_eq!(value, i64::MAX - 1);
    value = i64::MIN + 1;
    value.dec_value(5);
    assert_eq!(value, i64::MIN);
    value.dec_value(i64::MIN);
    assert_eq!(value, 0);
    value = i64::MIN;
    value.inc_value(i64::MIN);
    assert_eq!(value, i64::MIN);
    value = 1;
    value.dec_value(i64::MIN);
    assert_eq!(value, i64::MAX);
}

#[test]
fn unwrap_takes_the_value_out() {
    assert_eq!(Some(5).unwrap_abort(), 5);
    let ok: Result<&str, ()> = Ok("value");
    assert_eq!(ok.unwrap_abort(), "value");
}
