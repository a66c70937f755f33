use generic_codec::builder::{Encode, VecGeneric};
use generic_codec::error::{Error, Reason};
use generic_codec::generic::Generic;

#[derive(PartialEq, Eq, Debug)]
enum T {
    A(usize),
    B,
    C(i8, i8),
    D { a: isize },
}

impl Encode for T {
    fn encode(&self, out: &mut VecGeneric) -> Result<(), Error> {
        match self {
            T::A(x) => out.serialize_newtype_variant("A", x),
            T::B => {
                out.serialize_unit_variant("B");
                Ok(())
            }
            T::C(a, b) => {
                let mut state = out.serialize_tuple_variant(2);
                out.serialize_tuple_variant_elt(&mut state, a)?;
                out.serialize_tuple_variant_elt(&mut state, b)?;
                out.serialize_tuple_variant_end("C", state);
                Ok(())
            }
            T::D { a } => {
                let mut state = out.serialize_struct_variant(1);
                out.serialize_struct_variant_elt(&mut state, "a", a)?;
                out.serialize_struct_variant_end("D", state)
            }
        }
    }
}

fn variant_name(g: &Generic) -> Result<String, Error> {
    match g {
        Generic::Str(s) => Ok(s.clone()),
        _ => Err(Error::simple(Reason::InvalidType)),
    }
}

fn decode_t(x: &Generic) -> Result<T, Error> {
    let visitor = x.deserialize_enum();
    let disc = visitor.visit_variant()?;
    let name = variant_name(disc)?;
    match name.as_str() {
        "A" => {
            let payload = visitor.visit_newtype()?;
            match payload {
                Generic::UInt(v) => Ok(T::A(*v as usize)),
                _ => Err(Error::simple(Reason::InvalidType)),
            }
        }
        "B" => {
            visitor.visit_unit()?;
            Ok(T::B)
        }
        "C" => {
            let payload = visitor.visit_tuple()?;
            match payload {
                Generic::Array(items) if items.len() == 2 => {
                    let a = match &items[0] {
                        Generic::Int(v) => *v as i8,
                        _ => return Err(Error::simple(Reason::InvalidType)),
                    };
                    let b = match &items[1] {
                        Generic::Int(v) => *v as i8,
                        _ => return Err(Error::simple(Reason::InvalidType)),
                    };
                    Ok(T::C(a, b))
                }
                Generic::Array(_) => Err(Error::simple(Reason::BadLength)),
                _ => Err(Error::simple(Reason::InvalidType)),
            }
        }
        "D" => {
            let payload = visitor.visit_struct()?;
            match payload {
                Generic::Mapping(fields) if fields.len() == 1 => {
                    match (&fields[0].0, &fields[0].1) {
                        (Generic::Str(k), Generic::Int(v)) if k.as_str() == "a" => {
                            Ok(T::D { a: *v as isize })
                        }
                        _ => Err(Error::simple(Reason::InvalidType)),
                    }
                }
                Generic::Mapping(_) => Err(Error::simple(Reason::BadLength)),
                _ => Err(Error::simple(Reason::InvalidType)),
            }
        }
        _ => Err(Error::simple(Reason::InvalidType)),
    }
}

#[test]
fn test_enum() {
    let expected = T::B;

    let x = Generic::from_value(&expected).expect("Failed to serialize enum");

    let actual = decode_t(&x).expect("Failed to deserialize enum");

    assert_eq!(expected, actual);
}

#[test]
fn test_enum_newtype() {
    let expected = T::A(42);

    let x = Generic::from_value(&expected).expect("Failed to serialize enum");

    let actual = decode_t(&x).expect("Failed to deserialize enum");

    assert_eq!(expected, actual);
}

#[test]
fn test_enum_tuple() {
    let expected = T::C(-3, 22);

    let x = Generic::from_value(&expected).expect("Failed to serialize enum");

    let actual = decode_t(&x).expect("Failed to deserialize enum");

    assert_eq!(expected, actual);
}

#[test]
fn test_enum_struct() {
    let expected = T::D { a: 9001 };

    let x = Generic::from_value(&expected).expect("Failed to serialize enum");

    let actual = decode_t(&x).expect("Failed to deserialize enum");

    assert_eq!(expected, actual);
}

#[test]
fn unit_variant_encodes_as_text() {
    let x = Generic::from_value(&T::B).unwrap();
    assert_eq!(x, Generic::Str(String::from("B")));
}

#[test]
fn newtype_variant_encodes_as_single_entry_map() {
    let x = Generic::from_value(&T::A(42)).unwrap();
    match &x {
        Generic::Mapping(entries) => {
            assert_eq!(entries.len(), 1);
            assert_eq!(entries[0].0, Generic::Str(String::from("A")));
            assert_eq!(entries[0].1, Generic::UInt(42));
        }
        other => panic!("expected a single-entry map, got {:?}", other),
    }
}

#[test]
fn tuple_variant_encodes_as_map_to_array() {
    let x = Generic::from_value(&T::C(-3, 22)).unwrap();
    match &x {
        Generic::Mapping(entries) => {
            assert_eq!(entries.len(), 1);
            assert_eq!(entries[0].0, Generic::Str(String::from("C")));
            assert_eq!(
                entries[0].1,
                Generic::Array(vec![Generic::Int(-3), Generic::Int(22)])
            );
        }
        other => panic!("expected a single-entry map, got {:?}", other),
    }
}

#[test]
fn struct_variant_encodes_as_map_to_field_map() {
    let x = Generic::from_value(&T::D { a: 9001 }).unwrap();
    match &x {
        Generic::Mapping(entries) => {
            assert_eq!(entries.len(), 1);
            assert_eq!(entries[0].0, Generic::Str(String::from("D")));
            assert_eq!(
                entries[0].1,
                Generic::Mapping(vec![(
                    Generic::Str(String::from("a")),
                    Generic::Int(9001)
                )])
            );
        }
        other => panic!("expected a single-entry map, got {:?}", other),
    }
}

#[test]
fn enum_decode_from_multi_entry_map_is_bad_length() {
    let x = Generic::Mapping(vec![
        (Generic::Str(String::from("A")), Generic::UInt(1)),
        (Generic::Str(String::from("B")), Generic::UInt(2)),
    ]);
    let err = decode_t(&x).unwrap_err();
    assert_eq!(err.reason(), Reason::BadLength);
}

#[test]
fn enum_decode_from_array_is_invalid_type() {
    let x = Generic::Array(vec![Generic::UInt(1)]);
    let err = decode_t(&x).unwrap_err();
    assert_eq!(err.reason(), Reason::InvalidType);
}

#[test]
fn enum_decode_from_scalar_is_invalid_type() {
    let x = Generic::Int(7);
    let err = decode_t(&x).unwrap_err();
    assert_eq!(err.reason(), Reason::InvalidType);
}

struct EmitsNothing;

impl Encode for EmitsNothing {
    fn encode(&self, _out: &mut VecGeneric) -> Result<(), Error> {
        Ok(())
    }
}

struct EmitsTwo;

impl Encode for EmitsTwo {
    fn encode(&self, out: &mut VecGeneric) -> Result<(), Error> {
        out.serialize_unit();
        out.serialize_unit();
        Ok(())
    }
}

#[test]
fn from_value_of_zero_items_is_bad_length() {
    let err = Generic::from_value(&EmitsNothing).unwrap_err();
    assert_eq!(err.reason(), Reason::BadLength);
}

#[test]
fn from_value_of_two_items_is_bad_length() {
    let err = Generic::from_value(&EmitsTwo).unwrap_err();
    assert_eq!(err.reason(), Reason::BadLength);
}

#[test]
fn from_value_round_trips_a_generic_tree() {
    let tree = Generic::Array(vec![
        Generic::Nil,
        Generic::True,
        Generic::Int(-5),
        Generic::Mapping(vec![(Generic::Str(String::from("k")), Generic::Bin(vec![1, 2]))]),
    ]);
    let copy = Generic::from_value(&tree).unwrap();
    assert_eq!(copy, tree);
    let again = copy.deserialize().unwrap();
    assert_eq!(again, tree);
}

#[test]
fn newtype_variant_payload_must_be_one_item() {
    let mut out = VecGeneric::new();
    let err = out.serialize_newtype_variant("A", &EmitsTwo).unwrap_err();
    assert_eq!(err.reason(), Reason::BadLength);
}

#[test]
fn predicates_match_the_variant() {
    assert!(Generic::Nil.is_nil());
    assert!(Generic::False.is_false());
    assert!(Generic::True.is_true());
    assert!(Generic::Int(-1).is_int());
    assert!(Generic::UInt(1).is_uint());
    assert!(Generic::F32(0x3f800000).is_f32());
    assert!(Generic::F64(0x3ff0000000000000).is_f64());
    assert!(Generic::Bin(vec![0]).is_bin());
    assert!(Generic::Str(String::from("x")).is_str());
    assert!(Generic::Array(vec![]).is_array());
    assert!(Generic::Mapping(vec![]).is_map());
    assert!(!Generic::Nil.is_map());
    assert!(!Generic::Str(String::from("x")).is_int());
}

#[test]
fn duplicate_keys_and_order_survive_a_round_trip() {
    let map = Generic::Mapping(vec![
        (Generic::Str(String::from("k")), Generic::UInt(1)),
        (Generic::Str(String::from("k")), Generic::UInt(2)),
        (Generic::Str(String::from("a")), Generic::UInt(3)),
    ]);
    let copy = Generic::from_value(&map).unwrap();
    assert_eq!(copy, map);
}

#[test]
fn signed_and_unsigned_are_never_renormalized() {
    let signed = Generic::from_value(&Generic::Int(5)).unwrap();
    assert_eq!(signed, Generic::Int(5));
    assert!(signed.is_int());
    assert!(!signed.is_uint());

    let unsigned = Generic::from_value(&Generic::UInt(5)).unwrap();
    assert_eq!(unsigned, Generic::UInt(5));
    assert!(unsigned.is_uint());
    assert!(!unsigned.is_int());
}

#[test]
fn empty_collections_round_trip() {
    for empty in [
        Generic::Str(String::new()),
        Generic::Bin(Vec::new()),
        Generic::Array(Vec::new()),
        Generic::Mapping(Vec::new()),
    ] {
        let copy = Generic::from_value(&empty).unwrap();
        assert_eq!(copy, empty);
        let again = copy.deserialize().unwrap();
        assert_eq!(again, empty);
    }
}
