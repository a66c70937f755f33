use generic_codec::decode::{GenericVisitor, MapVisitor, SeqVisitor};
use generic_codec::error::{Error, Reason};
use generic_codec::generic::Generic;

#[test]
fn seq_visitor_walks_elements_in_order() {
    let elems = vec![Generic::UInt(1), Generic::UInt(2)];
    let mut v = SeqVisitor::new(&elems);
    assert_eq!(v.size_hint(), 2);
    assert_eq!(v.visit(), Some(&Generic::UInt(1)));
    assert_eq!(v.visit(), Some(&Generic::UInt(2)));
    assert_eq!(v.visit(), None);
    assert!(v.end().is_ok());
}

#[test]
fn seq_visitor_with_leftover_elements_fails_end() {
    let elems = vec![Generic::Nil, Generic::Nil];
    let mut v = SeqVisitor::new(&elems);
    v.visit();
    let err = v.end().unwrap_err();
    assert_eq!(err.reason(), Reason::BadLength);
}

#[test]
fn map_visitor_pairs_keys_with_values() {
    let pairs = vec![
        (Generic::Str(String::from("k")), Generic::UInt(7)),
        (Generic::Str(String::from("l")), Generic::UInt(8)),
    ];
    let mut v = MapVisitor::new(&pairs);
    assert_eq!(v.size_hint(), 2);
    let k = v.visit_key().unwrap();
    assert_eq!(k, &Generic::Str(String::from("k")));
    let val = v.visit_value().unwrap();
    assert_eq!(val, &Generic::UInt(7));
    let (k2, v2) = v.visit().unwrap();
    assert_eq!(k2, &Generic::Str(String::from("l")));
    assert_eq!(v2, &Generic::UInt(8));
    assert!(v.end().is_ok());
    assert!(v.visit_key().is_none());
}

#[test]
fn asking_for_a_value_with_none_pending_is_end_of_stream() {
    let pairs = vec![(Generic::Nil, Generic::Nil)];
    let mut v = MapVisitor::new(&pairs);
    let err = v.visit_value().unwrap_err();
    assert_eq!(err.reason(), Reason::EndOfStream);
}

#[test]
fn generic_visitor_builds_each_scalar() {
    let g = GenericVisitor;
    assert_eq!(g.visit_bool(true), Generic::True);
    assert_eq!(g.visit_bool(false), Generic::False);
    assert_eq!(g.visit_i64(-9), Generic::Int(-9));
    assert_eq!(g.visit_u64(9), Generic::UInt(9));
    assert_eq!(g.visit_f32(0x40490fdb), Generic::F32(0x40490fdb));
    assert_eq!(g.visit_f64(2.5f64.to_bits()), Generic::F64(2.5f64.to_bits()));
    assert_eq!(g.visit_str("hi"), Generic::Str(String::from("hi")));
    assert_eq!(
        g.visit_string(String::from("ho")),
        Generic::Str(String::from("ho"))
    );
    assert_eq!(g.visit_unit(), Generic::Nil);
    assert_eq!(g.visit_none(), Generic::Nil);
    assert_eq!(g.visit_bytes(&[3, 4]), Generic::Bin(vec![3, 4]));
    assert_eq!(g.visit_byte_buf(vec![5]), Generic::Bin(vec![5]));
}

#[test]
fn generic_visitor_drains_sequences_and_maps() {
    let g = GenericVisitor;
    let elems = vec![Generic::UInt(1), Generic::Str(String::from("s"))];
    let built = g.visit_seq(SeqVisitor::new(&elems)).unwrap();
    assert_eq!(built, Generic::Array(elems.clone()));

    let pairs = vec![(Generic::UInt(1), Generic::Nil)];
    let built = g.visit_map(MapVisitor::new(&pairs)).unwrap();
    assert_eq!(built, Generic::Mapping(pairs.clone()));
}

#[test]
fn visit_some_and_newtype_struct_are_transparent() {
    let g = GenericVisitor;
    let inner = Generic::Int(3);
    assert_eq!(g.visit_some(&inner).unwrap(), inner);
    assert_eq!(g.visit_newtype_struct(&inner).unwrap(), inner);
}

#[test]
fn deserialize_copies_a_whole_tree() {
    let tree = Generic::Mapping(vec![(
        Generic::Str(String::from("xs")),
        Generic::Array(vec![Generic::F64(0), Generic::Bin(vec![1])]),
    )]);
    let copy = tree.deserialize().unwrap();
    assert_eq!(copy, tree);
}

#[test]
fn clone_copies_a_whole_tree() {
    let tree = Generic::Array(vec![
        Generic::Str(String::from("deep")),
        Generic::Mapping(vec![(Generic::Int(-1), Generic::F32(7))]),
    ]);
    let copy = tree.clone();
    assert_eq!(copy, tree);
}

#[test]
fn chained_errors_keep_their_reason() {
    let inner = Error::simple(Reason::EndOfStream);
    let outer = Error::chain(Reason::Other, inner);
    assert_eq!(outer.reason(), Reason::Other);
}
