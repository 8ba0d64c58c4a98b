use scarab::decoder::Decoder;
use scarab::derive::ast::DataDecl;
use scarab::derive::ast::DeriveInput;
use scarab::derive::ast::FieldDecl;
use scarab::derive::ast::Fields;
use scarab::derive::ast::VariantDecl;
use scarab::derive::decode::Construct;
use scarab::derive::error::DeriveError;
use scarab::derive::internal::Container;
use scarab::derive::internal::Data;
use scarab::derive::internal::Field;
use scarab::derive::internal::Member;
use scarab::derive::internal::Style;
use scarab::derive::internal::Variant;
use scarab::derive::record::Record;
use scarab::encoder::Encoder;
use scarab::types::ScHash;
use scarab::types::ScTag;
use scarab::types::ScValue;

fn named(name: &str) -> FieldDecl {
    FieldDecl { ident: Some(String::from(name)) }
}

fn positional() -> FieldDecl {
    FieldDecl { ident: None }
}

fn input(name: &str, fields: Fields) -> DeriveInput {
    DeriveInput { ident: String::from(name), data: DataDecl::Struct(fields) }
}

fn pair_named() -> DeriveInput {
    input(
        "Pair",
        Fields::Named(vec![named("a"), named("b")]),
    )
}

#[test]
fn named_record_scenario() {
    let decl = pair_named();
    let encode = scarab::derive::encode::derive(&decl).unwrap();
    let record = Record {
        style: Style::Struct,
        values: vec![ScValue::Int64(-1), ScValue::String(String::from("hi"))],
    };
    assert!(encode.accepts(&record));
    let mut encoder = Encoder::new();
    encode.encode(&record, &mut encoder);
    let wire = encoder.data();
    assert_eq!(
        wire,
        vec![0xFF, 0xFF, 0xFF, 0xFF, 0xFF, 0xFF, 0xFF, 0xFF, 2, 0, 0, 0, 0x68, 0x69]
    );

    let decode = scarab::derive::decode::derive(&decl).unwrap();
    let kinds = [ScTag::Int64, ScTag::String];
    let mut decoder = Decoder::new(&wire);
    assert!(decode.complete(&kinds, &decoder));
    let back = decode.decode(&kinds, &mut decoder);
    assert_eq!(back, record);
    assert_eq!(decoder.left(), 0);
}

#[test]
fn positional_record_scenario() {
    let decl = input(
        "Point",
        Fields::Unnamed(vec![positional(), positional()]),
    );
    let encode = scarab::derive::encode::derive(&decl).unwrap();
    let record = Record {
        style: Style::Tuple,
        values: vec![ScValue::Int64(10), ScValue::Int64(20)],
    };
    let mut encoder = Encoder::new();
    encode.encode(&record, &mut encoder);
    let wire = encoder.data();
    assert_eq!(
        wire,
        vec![0x0A, 0, 0, 0, 0, 0, 0, 0, 0x14, 0, 0, 0, 0, 0, 0, 0]
    );
    let decode = scarab::derive::decode::derive(&decl).unwrap();
    let back = decode.decode(&[ScTag::Int64, ScTag::Int64], &mut Decoder::new(&wire));
    assert_eq!(back, record);
    assert_eq!(back.style, Style::Tuple);
}

#[test]
fn truncated_record_is_not_complete() {
    let decl = pair_named();
    let decode = scarab::derive::decode::derive(&decl).unwrap();
    let wire: Vec<u8> = vec![0xFF, 0xFF, 0xFF, 0xFF, 0xFF, 0xFF, 0xFF, 0xFF, 2, 0, 0, 0, 0x68, 0x69];
    let kinds = [ScTag::Int64, ScTag::String];
    assert!(decode.complete(&kinds, &Decoder::new(&wire)));
    assert!(!decode.complete(&kinds, &Decoder::new(&wire[..13])));
    assert!(!decode.complete(&kinds, &Decoder::new(&wire[..8])));
    assert!(!decode.complete(&kinds, &Decoder::new(&wire[..7])));
    assert!(!decode.complete(&kinds, &Decoder::new(&[])));
    assert!(!decode.complete(&[ScTag::Int64], &Decoder::new(&wire)));
    assert!(!decode.complete(
        &[ScTag::Int64, ScTag::String, ScTag::Int64],
        &Decoder::new(&wire)
    ));
}

#[test]
fn decoding_stops_where_the_record_ends() {
    let decl = pair_named();
    let decode = scarab::derive::decode::derive(&decl).unwrap();
    let mut wire: Vec<u8> = vec![5, 0, 0, 0, 0, 0, 0, 0, 1, 0, 0, 0, 0x7A];
    wire.extend_from_slice(&[0xAA, 0xBB, 0xCC]);
    let mut decoder = Decoder::new(&wire);
    let record = decode.decode(&[ScTag::Int64, ScTag::String], &mut decoder);
    assert_eq!(
        record.values,
        vec![ScValue::Int64(5), ScValue::String(String::from("z"))]
    );
    assert_eq!(decoder.left(), 3);
    assert_eq!(decoder.take(3), &[0xAA, 0xBB, 0xCC]);
}

#[test]
fn record_is_the_concatenation_of_its_fields() {
    let hash = ScHash::from_bytes(&[9u8; 32]);
    let values = vec![
        ScValue::Hash(hash),
        ScValue::String(String::from("description")),
        ScValue::Bytes(vec![]),
        ScValue::Int64(i64::MIN),
    ];
    let decl = input(
        "Mixed",
        Fields::Named(vec![
            named("hash"),
            named("text"),
            named("blob"),
            named("number"),
        ]),
    );
    let encode = scarab::derive::encode::derive(&decl).unwrap();
    let record = Record { style: Style::Struct, values: values.clone() };
    let mut encoder = Encoder::new();
    encode.encode(&record, &mut encoder);
    let mut expected: Vec<u8> = Vec::new();
    for value in &values {
        expected.extend_from_slice(&value.to_untagged_bytes());
    }
    assert_eq!(encoder.data(), expected);
    assert_eq!(expected.len(), 32 + 4 + 11 + 4 + 8);
    let decode = scarab::derive::decode::derive(&decl).unwrap();
    let kinds: Vec<ScTag> = values.iter().map(|value| value.tag()).collect();
    assert_eq!(
        kinds,
        vec![ScTag::Hash, ScTag::String, ScTag::Bytes, ScTag::Int64]
    );
    assert_eq!(decode.decode(&kinds, &mut Decoder::new(&expected)), record);
}

#[test]
fn field_order_changes_the_wire_format() {
    let forward = input(
        "Forward",
        Fields::Named(vec![named("a"), named("b")]),
    );
    let swapped = input(
        "Swapped",
        Fields::Named(vec![named("b"), named("a")]),
    );
    let number = ScValue::Int64(-1);
    let text = ScValue::String(String::from("hi"));

    let mut first = Encoder::new();
    scarab::derive::encode::derive(&forward).unwrap().encode(
        &Record { style: Style::Struct, values: vec![number.clone(), text.clone()] },
        &mut first,
    );
    let mut second = Encoder::new();
    scarab::derive::encode::derive(&swapped).unwrap().encode(
        &Record { style: Style::Struct, values: vec![text.clone(), number.clone()] },
        &mut second,
    );
    assert_eq!(
        second.data(),
        vec![2, 0, 0, 0, 0x68, 0x69, 0xFF, 0xFF, 0xFF, 0xFF, 0xFF, 0xFF, 0xFF, 0xFF]
    );
    assert_ne!(first.data(), second.data());
    assert_eq!(first.data().len(), second.data().len());

    let decode = scarab::derive::decode::derive(&swapped).unwrap();
    let back = decode.decode(&[ScTag::String, ScTag::Int64], &mut Decoder::new(&second.data()));
    assert_eq!(back.values, vec![text, number]);
}

#[test]
fn unit_struct_is_refused() {
    let decl = input("Nothing", Fields::Unit);
    let encode = scarab::derive::encode::derive(&decl);
    assert_eq!(encode.err(), Some(DeriveError::UnitStruct));
    let decode = scarab::derive::decode::derive(&decl);
    assert_eq!(decode.err(), Some(DeriveError::UnitStruct));
    assert_eq!(
        DeriveError::UnitStruct.message(),
        "cannot derive for unit-shaped records"
    );
}

#[test]
fn enum_is_refused() {
    let decl = DeriveInput {
        ident: String::from("Choice"),
        data: DataDecl::Enum(vec![
            VariantDecl { ident: String::from("A"), fields: Fields::Unit },
            VariantDecl {
                ident: String::from("B"),
                fields: Fields::Unnamed(vec![positional()]),
            },
        ]),
    };
    assert_eq!(
        scarab::derive::encode::derive(&decl).err(),
        Some(DeriveError::Enum)
    );
    assert_eq!(
        scarab::derive::decode::derive(&decl).err(),
        Some(DeriveError::Enum)
    );
    assert_eq!(DeriveError::Enum.message(), "cannot derive for variant records");
}

#[test]
fn union_is_refused() {
    let decl = DeriveInput { ident: String::from("Either"), data: DataDecl::Union };
    assert_eq!(
        scarab::derive::encode::derive(&decl).err(),
        Some(DeriveError::Union)
    );
    assert_eq!(
        scarab::derive::decode::derive(&decl).err(),
        Some(DeriveError::Union)
    );
    assert_eq!(Container::from_ast(&decl).err(), Some(DeriveError::Union));
    assert_eq!(DeriveError::Union.message(), "cannot derive for unions");
}

#[test]
fn generated_code_names_the_type_and_its_fields() {
    let decl = pair_named();
    let encode = scarab::derive::encode::derive(&decl).unwrap();
    assert_eq!(encode.ident(), "Pair");
    assert_eq!(encode.dummy(), "_IMPL_ENCODE_FOR_Pair");
    assert_eq!(
        encode.calls(),
        &vec![Member::Named(String::from("a")), Member::Named(String::from("b"))]
    );
    let decode = scarab::derive::decode::derive(&decl).unwrap();
    assert_eq!(decode.ident(), "Pair");
    assert_eq!(decode.dummy(), "_IMPL_DECODE_FOR_Pair");
    assert_eq!(decode.body(), &Construct::ByName(encode.calls().clone()));
    assert_eq!(decode.count(), 2);

    let tuple = input(
        "Point",
        Fields::Unnamed(vec![positional(), positional()]),
    );
    let decode = scarab::derive::decode::derive(&tuple).unwrap();
    assert_eq!(decode.body(), &Construct::ByPosition(2));
    let encode = scarab::derive::encode::derive(&tuple).unwrap();
    assert_eq!(encode.calls(), &vec![Member::Unnamed(0), Member::Unnamed(1)]);
}

#[test]
fn fields_are_enumerated_in_declaration_order() {
    let decls = vec![named("x"), positional(), named("z")];
    let fields = Data::expand_fields(&decls);
    assert_eq!(
        fields,
        vec![
            Field {
                index: 0,
                ident: Some(String::from("x")),
                member: Member::Named(String::from("x")),
            },
            Field { index: 1, ident: None, member: Member::Unnamed(1) },
            Field {
                index: 2,
                ident: Some(String::from("z")),
                member: Member::Named(String::from("z")),
            },
        ]
    );
    assert_eq!(Field::from_ast(&decls[1], 7).member, Member::Unnamed(7));
}

#[test]
fn shapes_are_classified() {
    let (style, fields) = Data::expand_struct(&Fields::Named(vec![named("a")]));
    assert_eq!(style, Style::Struct);
    assert_eq!(fields.len(), 1);
    let (style, fields) = Data::expand_struct(&Fields::Unnamed(vec![positional()]));
    assert_eq!(style, Style::Tuple);
    assert_eq!(fields.len(), 1);
    let (style, fields) = Data::expand_struct(&Fields::Unit);
    assert_eq!(style, Style::Unit);
    assert!(fields.is_empty());

    let variants = Data::expand_enum(&vec![
        VariantDecl { ident: String::from("A"), fields: Fields::Unit },
        VariantDecl {
            ident: String::from("B"),
            fields: Fields::Named(vec![named("inner")]),
        },
    ]);
    assert_eq!(variants.len(), 2);
    assert_eq!(
        variants[0],
        Variant { ident: String::from("A"), style: Style::Unit, fields: vec![] }
    );
    assert_eq!(variants[1].style, Style::Struct);
    assert_eq!(variants[1].fields[0].member, Member::Named(String::from("inner")));

    let data = Data::from_ast(&DataDecl::Struct(Fields::Unit)).unwrap();
    assert_eq!(data, Data::Struct(Style::Unit, vec![]));
    assert!(matches!(
        Data::from_ast(&DataDecl::Enum(vec![])).unwrap(),
        Data::Enum(_)
    ));
}

#[test]
fn structs_without_fields_are_refused_whatever_their_brackets() {
    for fields in [Fields::Named(vec![]), Fields::Unnamed(vec![]), Fields::Unit] {
        let decl = input("Empty", fields);
        assert_eq!(
            scarab::derive::encode::derive(&decl).err(),
            Some(DeriveError::UnitStruct)
        );
        assert_eq!(
            scarab::derive::decode::derive(&decl).err(),
            Some(DeriveError::UnitStruct)
        );
    }
}
