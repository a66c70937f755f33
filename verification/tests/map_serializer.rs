use generic_codec::generic::Generic;
use generic_codec::map_serializer::MapSerializer;
use generic_codec::Reason;

fn entries(n: usize) -> Vec<(Generic, Generic)> {
    let mut v = Vec::new();
    for i in 0..n {
        v.push((Generic::UInt(i as u64), Generic::Nil));
    }
    v
}

#[test]
fn fixmap_header_is_one_byte() {
    let mut ser = MapSerializer::new();
    let mut out: Vec<u8> = Vec::new();
    ser.hint_size(Some(15), &mut out).unwrap();
    assert_eq!(out, vec![0x8fu8]);
}

#[test]
fn map16_header_is_three_bytes() {
    let mut ser = MapSerializer::new();
    let mut out: Vec<u8> = Vec::new();
    ser.hint_size(Some(16), &mut out).unwrap();
    assert_eq!(out, vec![0xdeu8, 0x00, 0x10]);
}

#[test]
fn map32_header_is_five_bytes() {
    let mut ser = MapSerializer::new();
    let mut out: Vec<u8> = Vec::new();
    ser.hint_size(Some(65536), &mut out).unwrap();
    assert_eq!(out, vec![0xdfu8, 0x00, 0x01, 0x00, 0x00]);
}

#[test]
fn oversized_map_is_too_big_and_writes_nothing() {
    let mut ser = MapSerializer::new();
    let mut out: Vec<u8> = Vec::new();
    let err = ser.hint_size(Some(4294967296), &mut out).unwrap_err();
    assert_eq!(err.reason(), Reason::TooBig);
    assert!(out.is_empty());
}

#[test]
fn encoding_fifteen_entries_uses_the_one_byte_header() {
    let map = Generic::Mapping(entries(15));
    let mut out: Vec<u8> = Vec::new();
    map.serialize(&mut out).unwrap();
    assert_eq!(out[0], 0x8f);
    // 15 keys of 9 bytes each and 15 one-byte nil values follow the header
    assert_eq!(out.len(), 1 + 15 * 10);
}

#[test]
fn encoding_sixteen_entries_uses_the_three_byte_header() {
    let map = Generic::Mapping(entries(16));
    let mut out: Vec<u8> = Vec::new();
    map.serialize(&mut out).unwrap();
    assert_eq!(&out[0..3], &[0xdeu8, 0x00, 0x10]);
    assert_eq!(out.len(), 3 + 16 * 10);
}

#[test]
fn known_and_unknown_size_produce_identical_bytes() {
    let pairs = vec![
        (Generic::Str(String::from("x")), Generic::Int(-1)),
        (Generic::UInt(9), Generic::True),
    ];

    let mut with_hint: Vec<u8> = Vec::new();
    let mut ser = MapSerializer::new();
    ser.hint_size(Some(2), &mut with_hint).unwrap();
    for (k, v) in &pairs {
        ser.serialize_key(k, &mut with_hint).unwrap();
        ser.serialize_value(v, &mut with_hint).unwrap();
    }
    ser.finish(&mut with_hint).unwrap();

    let mut without_hint: Vec<u8> = Vec::new();
    let mut ser = MapSerializer::new();
    ser.hint_size(None, &mut without_hint).unwrap();
    for (k, v) in &pairs {
        ser.serialize_key(k, &mut without_hint).unwrap();
        ser.serialize_value(v, &mut without_hint).unwrap();
    }
    ser.finish(&mut without_hint).unwrap();

    assert_eq!(with_hint, without_hint);
    assert!(!with_hint.is_empty());
}

#[test]
fn nothing_reaches_the_sink_before_finish_in_unknown_size_mode() {
    let mut out: Vec<u8> = Vec::new();
    let mut ser = MapSerializer::new();
    ser.hint_size(None, &mut out).unwrap();
    ser.serialize_element(&Generic::True, &mut out).unwrap();
    ser.serialize_element(&Generic::Nil, &mut out).unwrap();
    assert!(out.is_empty());
    ser.finish(&mut out).unwrap();
    assert_eq!(out, vec![0x81u8, 0xc3, 0xc0]);
}

#[test]
fn hint_of_three_with_two_pairs_is_bad_length() {
    let mut out: Vec<u8> = Vec::new();
    let mut ser = MapSerializer::new();
    ser.hint_size(Some(3), &mut out).unwrap();
    for (k, v) in entries(2) {
        ser.serialize_key(&k, &mut out).unwrap();
        ser.serialize_value(&v, &mut out).unwrap();
    }
    let err = ser.finish(&mut out).unwrap_err();
    assert_eq!(err.reason(), Reason::BadLength);
}

#[test]
fn unpaired_key_in_unknown_size_mode_is_bad_length() {
    let mut out: Vec<u8> = Vec::new();
    let mut ser = MapSerializer::new();
    ser.serialize_element(&Generic::True, &mut out).unwrap();
    let err = ser.finish(&mut out).unwrap_err();
    assert_eq!(err.reason(), Reason::BadLength);
    assert!(out.is_empty());
}

#[test]
fn end_is_the_terminal_finish() {
    let mut out: Vec<u8> = Vec::new();
    let mut ser = MapSerializer::new();
    ser.hint_size(Some(0), &mut out).unwrap();
    ser.end(&mut out).unwrap();
    assert_eq!(out, vec![0x80u8]);
}

#[test]
fn serialize_field_writes_the_name_then_the_value() {
    let mut out: Vec<u8> = Vec::new();
    let mut ser = MapSerializer::new();
    ser.hint_size(Some(1), &mut out).unwrap();
    ser.serialize_field("n", &Generic::True, &mut out).unwrap();
    ser.finish(&mut out).unwrap();
    assert_eq!(out, vec![0x81u8, 0xdb, 0, 0, 0, 1, 0x6e, 0xc3]);
}
