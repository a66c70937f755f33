use generic_codec::generic::Generic;

fn bytes_of(g: &Generic) -> Vec<u8> {
    let mut out: Vec<u8> = Vec::new();
    g.serialize(&mut out).unwrap();
    out
}

#[test]
fn scalars_encode_as_tag_plus_fixed_payload() {
    assert_eq!(bytes_of(&Generic::Nil), vec![0xc0u8]);
    assert_eq!(bytes_of(&Generic::False), vec![0xc2u8]);
    assert_eq!(bytes_of(&Generic::True), vec![0xc3u8]);
    assert_eq!(
        bytes_of(&Generic::UInt(42)),
        vec![0xcfu8, 0, 0, 0, 0, 0, 0, 0, 42]
    );
    assert_eq!(
        bytes_of(&Generic::Int(-2)),
        vec![0xd3u8, 0xff, 0xff, 0xff, 0xff, 0xff, 0xff, 0xff, 0xfe]
    );
}

#[test]
fn float_bit_patterns_encode_big_endian() {
    let one_f32 = 1.0f32.to_bits();
    assert_eq!(
        bytes_of(&Generic::F32(one_f32)),
        vec![0xcau8, 0x3f, 0x80, 0x00, 0x00]
    );
    let one_f64 = 1.0f64.to_bits();
    assert_eq!(
        bytes_of(&Generic::F64(one_f64)),
        vec![0xcbu8, 0x3f, 0xf0, 0, 0, 0, 0, 0, 0]
    );
}

#[test]
fn text_encodes_with_byte_length_prefix() {
    assert_eq!(
        bytes_of(&Generic::Str(String::from("ab"))),
        vec![0xdbu8, 0, 0, 0, 2, 0x61, 0x62]
    );
}

#[test]
fn bytes_encode_with_length_prefix() {
    assert_eq!(
        bytes_of(&Generic::Bin(vec![9, 8, 7])),
        vec![0xc6u8, 0, 0, 0, 3, 9, 8, 7]
    );
}

#[test]
fn arrays_encode_with_count_prefix_and_elements() {
    assert_eq!(
        bytes_of(&Generic::Array(vec![Generic::Nil, Generic::True])),
        vec![0xddu8, 0, 0, 0, 2, 0xc0, 0xc3]
    );
}

#[test]
fn nested_maps_encode_depth_first() {
    let inner = Generic::Mapping(vec![(Generic::UInt(1), Generic::Nil)]);
    let outer = Generic::Mapping(vec![(Generic::Str(String::from("m")), inner)]);
    assert_eq!(
        bytes_of(&outer),
        vec![
            0x81u8, // one entry
            0xdb, 0, 0, 0, 1, 0x6d, // the key "m"
            0x81, // the inner map's one entry
            0xcf, 0, 0, 0, 0, 0, 0, 0, 1, // the inner key 1
            0xc0, // the inner nil value
        ]
    );
}

#[test]
fn empty_text_bytes_and_array_encode_as_bare_prefixes() {
    assert_eq!(
        bytes_of(&Generic::Str(String::new())),
        vec![0xdbu8, 0, 0, 0, 0]
    );
    assert_eq!(bytes_of(&Generic::Bin(Vec::new())), vec![0xc6u8, 0, 0, 0, 0]);
    assert_eq!(
        bytes_of(&Generic::Array(Vec::new())),
        vec![0xddu8, 0, 0, 0, 0]
    );
    assert_eq!(bytes_of(&Generic::Mapping(Vec::new())), vec![0x80u8]);
}

#[test]
fn text_length_prefix_counts_utf8_bytes_not_characters() {
    let s = String::from("\u{e9}");
    assert_eq!(s.chars().count(), 1);
    assert_eq!(
        bytes_of(&Generic::Str(s)),
        vec![0xdbu8, 0, 0, 0, 2, 0xc3, 0xa9]
    );
}
