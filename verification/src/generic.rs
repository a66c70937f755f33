use vstd::prelude::*;
use vstd::utf8::encode_utf8;

use crate::defs::{
    be32_bytes, be64_bytes, write_be32, write_be64, ARRAY32, BIN32, BOOL_FALSE, BOOL_TRUE, FLOAT32,
    FLOAT64, INT64, MAX_MAP32, NIL, STR32, UINT64,
};
use crate::error::{Error, Reason};
use crate::map_serializer::{header_bytes, FramerMode, MapSerializer};

verus! {

broadcast use vstd::std_specs::vec::group_vec_axioms;

/// A dynamic, self-describing value: the in-memory form of any wire item.
///
/// `Array` and `Mapping` preserve wire order; `Mapping` is an ordered pair
/// list, not a hash map, so structurally equal keys may repeat and order is
/// significant for re-encoding. `Int` and `UInt` reflect the two wire
/// integer encodings and are never silently renormalized into each other.
/// `F32` and `F64` carry the bit patterns of the corresponding binary
/// floating-point wire payloads.
#[derive(Debug, PartialEq, Eq)]
pub enum Generic {
    Nil,
    False,
    True,
    Int(i64),
    UInt(u64),
    F32(u32),
    F64(u64),
    Bin(Vec<u8>),
    Str(String),
    Array(Vec<Generic>),
    Mapping(Vec<(Generic, Generic)>),
}

/// The mathematical model of a [`Generic`] value: the same tree with
/// every sequence abstracted to a `Seq`.
#[verifier::ext_equal]
pub enum GenericModel {
    Nil,
    False,
    True,
    Int(i64),
    UInt(u64),
    F32(u32),
    F64(u64),
    Bin(Seq<u8>),
    Str(Seq<char>),
    Array(Seq<GenericModel>),
    Mapping(Seq<(GenericModel, GenericModel)>),
}

/// The models of a sequence of values, element by element.
pub open spec fn models_of(s: Seq<Generic>) -> Seq<GenericModel>
    decreases s,
{
    Seq::new(
        s.len(),
        |i: int|
            if 0 <= i < s.len() {
                s[i]@
            } else {
                GenericModel::Nil
            },
    )
}

/// The models of a sequence of key/value pairs, pair by pair.
pub open spec fn pair_models_of(s: Seq<(Generic, Generic)>) -> Seq<(GenericModel, GenericModel)>
    decreases s,
{
    Seq::new(
        s.len(),
        |i: int|
            if 0 <= i < s.len() {
                (s[i].0@, s[i].1@)
            } else {
                (GenericModel::Nil, GenericModel::Nil)
            },
    )
}

impl View for Generic {
    type V = GenericModel;

    open spec fn view(&self) -> GenericModel
        decreases self,
    {
        match self {
            Generic::Nil => GenericModel::Nil,
            Generic::False => GenericModel::False,
            Generic::True => GenericModel::True,
            Generic::Int(i) => GenericModel::Int(*i),
            Generic::UInt(u) => GenericModel::UInt(*u),
            Generic::F32(b) => GenericModel::F32(*b),
            Generic::F64(b) => GenericModel::F64(*b),
            Generic::Bin(b) => GenericModel::Bin(b@),
            Generic::Str(s) => GenericModel::Str(s@),
            Generic::Array(v) => GenericModel::Array(models_of(v@)),
            Generic::Mapping(m) => GenericModel::Mapping(pair_models_of(m@)),
        }
    }
}

impl Clone for Generic {
    /// A deep copy: the clone models the same tree as the original.
    #[verifier::loop_isolation(false)]
    fn clone(&self) -> (r: Generic)
        ensures
            r@ == self@,
        decreases self,
    {
        match self {
            Generic::Nil => Generic::Nil,
            Generic::False => Generic::False,
            Generic::True => Generic::True,
            Generic::Int(i) => Generic::Int(*i),
            Generic::UInt(u) => Generic::UInt(*u),
            Generic::F32(b) => Generic::F32(*b),
            Generic::F64(b) => Generic::F64(*b),
            Generic::Bin(b) => {
                let c = b.clone();
                proof {
                    assert(c@ =~= b@);
                }
                Generic::Bin(c)
            },
            Generic::Str(s) => Generic::Str(s.clone()),
            Generic::Array(v) => {
                let n = v.len();
                let mut buf: Vec<Generic> = Vec::new();
                let mut i: usize = 0;
                while i < n
                    invariant
                        i <= n,
                        buf@.len() == i,
                        forall|j: int| 0 <= j < i ==> buf@[j]@ == v@[j]@,
                    decreases n - i,
                {
                    proof {
                        assert(decreases_to!(*self => (*self)->Array_0));
                        assert(decreases_to!(*v => v@[i as int]));
                    }
                    let item = (&v[i]).clone();
                    buf.push(item);
                    i = i + 1;
                }
                proof {
                    assert(models_of(buf@) =~= models_of(v@));
                }
                Generic::Array(buf)
            },
            Generic::Mapping(m) => {
                let n = m.len();
                let mut buf: Vec<(Generic, Generic)> = Vec::new();
                let mut i: usize = 0;
                while i < n
                    invariant
                        i <= n,
                        buf@.len() == i,
                        forall|j: int|
                            0 <= j < i ==> buf@[j].0@ == m@[j].0@ && buf@[j].1@ == m@[j].1@,
                    decreases n - i,
                {
                    proof {
                        assert(decreases_to!(*self => (*self)->Mapping_0));
                        assert(decreases_to!(*m => m@[i as int]));
                        assert(decreases_to!(m@[i as int] => m@[i as int].0));
                        assert(decreases_to!(m@[i as int] => m@[i as int].1));
                        assert(decreases_to!(*self => m@[i as int].0));
                        assert(decreases_to!(*self => m@[i as int].1));
                    }
                    let key = (&m[i].0).clone();
                    let value = (&m[i].1).clone();
                    buf.push((key, value));
                    i = i + 1;
                }
                proof {
                    assert(pair_models_of(buf@) =~= pair_models_of(m@));
                }
                Generic::Mapping(buf)
            },
        }
    }
}

/// Whether a value fits the wire format: every collection, byte sequence
/// and text in the tree is short enough for its 32-bit length prefix.
pub open spec fn encodable(v: GenericModel) -> bool
    decreases v,
{
    match v {
        GenericModel::Bin(b) => b.len() <= MAX_MAP32,
        GenericModel::Str(s) => encode_utf8(s).len() <= MAX_MAP32,
        GenericModel::Array(items) => items.len() <= MAX_MAP32 && (forall|i: int|
            0 <= i < items.len() ==> encodable(#[trigger] items[i])),
        GenericModel::Mapping(pairs) => pairs.len() <= MAX_MAP32 && (forall|i: int|
            #![trigger pairs[i]]
            0 <= i < pairs.len() ==> encodable(pairs[i].0) && encodable(pairs[i].1)),
        _ => true,
    }
}

/// The byte encoding of a value: a tag byte, a fixed-width big-endian
/// payload or length, then any nested content. Map headers use the
/// minimal size class picked by [`header_bytes`].
pub open spec fn wire_bytes(v: GenericModel) -> Seq<u8>
    decreases v, 0int,
{
    match v {
        GenericModel::Nil => seq![NIL],
        GenericModel::False => seq![BOOL_FALSE],
        GenericModel::True => seq![BOOL_TRUE],
        GenericModel::Int(i) => seq![INT64] + be64_bytes(i as u64),
        GenericModel::UInt(u) => seq![UINT64] + be64_bytes(u),
        GenericModel::F32(b) => seq![FLOAT32] + be32_bytes(b),
        GenericModel::F64(b) => seq![FLOAT64] + be64_bytes(b),
        GenericModel::Bin(b) => seq![BIN32] + be32_bytes(b.len() as u32) + b,
        GenericModel::Str(s) => seq![STR32] + be32_bytes(encode_utf8(s).len() as u32)
            + encode_utf8(s),
        GenericModel::Array(items) => seq![ARRAY32] + be32_bytes(items.len() as u32)
            + wire_bytes_seq(items),
        GenericModel::Mapping(pairs) => header_bytes(pairs.len() as int) + wire_bytes_pairs(pairs),
    }
}

/// The concatenated byte encodings of a sequence of values.
pub open spec fn wire_bytes_seq(items: Seq<GenericModel>) -> Seq<u8>
    decreases items, 1int,
{
    if items.len() == 0 {
        Seq::empty()
    } else {
        wire_bytes(items[0]) + wire_bytes_seq(items.subrange(1, items.len() as int))
    }
}

/// The concatenated byte encodings of a sequence of key/value pairs,
/// each key immediately followed by its value.
pub open spec fn wire_bytes_pairs(pairs: Seq<(GenericModel, GenericModel)>) -> Seq<u8>
    decreases pairs, 1int,
{
    if pairs.len() == 0 {
        Seq::empty()
    } else {
        wire_bytes(pairs[0].0) + wire_bytes(pairs[0].1) + wire_bytes_pairs(
            pairs.subrange(1, pairs.len() as int),
        )
    }
}

/// Extending a prefix of a sequence by one element appends that
/// element's bytes to the concatenated encoding.
pub proof fn lemma_wire_bytes_seq_take(items: Seq<GenericModel>, i: int)
    requires
        0 <= i < items.len(),
    ensures
        wire_bytes_seq(items.take(i + 1)) == wire_bytes_seq(items.take(i)) + wire_bytes(items[i]),
    decreases i,
{
    let a = items.take(i + 1);
    let b = items.take(i);
    assert(a.len() == i + 1);
    assert(b.len() == i);
    if i == 0 {
        assert(b =~= Seq::<GenericModel>::empty());
        assert(wire_bytes_seq(b) == Seq::<u8>::empty());
        assert(a[0] == items[0]);
        assert(a.subrange(1, 1) =~= Seq::<GenericModel>::empty());
        assert(wire_bytes_seq(a.subrange(1, 1)) == Seq::<u8>::empty());
        assert(wire_bytes_seq(a) == wire_bytes(a[0]) + wire_bytes_seq(a.subrange(1, 1)));
        assert(wire_bytes_seq(a) =~= wire_bytes_seq(b) + wire_bytes(items[i]));
    } else {
        let rest = items.subrange(1, items.len() as int);
        lemma_wire_bytes_seq_take(rest, i - 1);
        assert(a[0] == items[0]);
        assert(b[0] == items[0]);
        assert(a.subrange(1, i + 1) =~= rest.take(i));
        assert(b.subrange(1, i) =~= rest.take(i - 1));
        assert(rest[i - 1] == items[i]);
        assert(wire_bytes_seq(a) == wire_bytes(a[0]) + wire_bytes_seq(rest.take(i)));
        assert(wire_bytes_seq(b) == wire_bytes(b[0]) + wire_bytes_seq(rest.take(i - 1)));
        assert(wire_bytes_seq(a) =~= wire_bytes_seq(b) + wire_bytes(items[i]));
    }
}

/// Extending a prefix of a pair sequence by one pair appends its key's
/// and value's bytes to the concatenated encoding.
pub proof fn lemma_wire_bytes_pairs_take(pairs: Seq<(GenericModel, GenericModel)>, i: int)
    requires
        0 <= i < pairs.len(),
    ensures
        wire_bytes_pairs(pairs.take(i + 1)) == wire_bytes_pairs(pairs.take(i)) + wire_bytes(
            pairs[i].0,
        ) + wire_bytes(pairs[i].1),
    decreases i,
{
    let a = pairs.take(i + 1);
    let b = pairs.take(i);
    assert(a.len() == i + 1);
    assert(b.len() == i);
    if i == 0 {
        assert(b =~= Seq::<(GenericModel, GenericModel)>::empty());
        assert(wire_bytes_pairs(b) == Seq::<u8>::empty());
        assert(a[0] == pairs[0]);
        assert(a.subrange(1, 1) =~= Seq::<(GenericModel, GenericModel)>::empty());
        assert(wire_bytes_pairs(a.subrange(1, 1)) == Seq::<u8>::empty());
        assert(wire_bytes_pairs(a) == wire_bytes(a[0].0) + wire_bytes(a[0].1) + wire_bytes_pairs(
            a.subrange(1, 1),
        ));
        assert(wire_bytes_pairs(a) =~= wire_bytes_pairs(b) + wire_bytes(pairs[i].0) + wire_bytes(
            pairs[i].1,
        ));
    } else {
        let rest = pairs.subrange(1, pairs.len() as int);
        lemma_wire_bytes_pairs_take(rest, i - 1);
        assert(a[0] == pairs[0]);
        assert(b[0] == pairs[0]);
        assert(a.subrange(1, i + 1) =~= rest.take(i));
        assert(b.subrange(1, i) =~= rest.take(i - 1));
        assert(rest[i - 1] == pairs[i]);
        assert(wire_bytes_pairs(a) == wire_bytes(a[0].0) + wire_bytes(a[0].1) + wire_bytes_pairs(
            rest.take(i),
        ));
        assert(wire_bytes_pairs(b) == wire_bytes(b[0].0) + wire_bytes(b[0].1) + wire_bytes_pairs(
            rest.take(i - 1),
        ));
        assert(wire_bytes_pairs(a) =~= wire_bytes_pairs(b) + wire_bytes(pairs[i].0) + wire_bytes(
            pairs[i].1,
        ));
    }
}

impl Generic {
    /// Encodes this value to bytes, appending to `out`.
    ///
    /// Succeeds exactly when the value fits the wire format; on success
    /// the appended bytes are the value's encoding. Maps are framed in
    /// known-size mode, so their headers go out before their entries.
    pub fn serialize(&self, out: &mut Vec<u8>) -> (r: Result<(), Error>)
        ensures
            r is Ok <==> encodable(self@),
            r is Ok ==> final(out)@ == old(out)@ + wire_bytes(self@),
            r matches Err(e) ==> e.reason == Reason::TooBig,
            old(out)@.is_prefix_of(final(out)@),
        decreases *self, 0int,
    {
        match self {
            Generic::Nil => {
                out.push(NIL);
                proof {
                    assert(out@ =~= old(out)@ + wire_bytes(self@));
                }
                Ok(())
            },
            Generic::False => {
                out.push(BOOL_FALSE);
                proof {
                    assert(out@ =~= old(out)@ + wire_bytes(self@));
                }
                Ok(())
            },
            Generic::True => {
                out.push(BOOL_TRUE);
                proof {
                    assert(out@ =~= old(out)@ + wire_bytes(self@));
                }
                Ok(())
            },
            Generic::Int(i) => {
                out.push(INT64);
                write_be64(out, #[verifier::truncate] (*i as u64));
                proof {
                    assert(out@ =~= old(out)@ + wire_bytes(self@));
                }
                Ok(())
            },
            Generic::UInt(u) => {
                out.push(UINT64);
                write_be64(out, *u);
                proof {
                    assert(out@ =~= old(out)@ + wire_bytes(self@));
                }
                Ok(())
            },
            Generic::F32(b) => {
                out.push(FLOAT32);
                write_be32(out, *b);
                proof {
                    assert(out@ =~= old(out)@ + wire_bytes(self@));
                }
                Ok(())
            },
            Generic::F64(b) => {
                out.push(FLOAT64);
                write_be64(out, *b);
                proof {
                    assert(out@ =~= old(out)@ + wire_bytes(self@));
                }
                Ok(())
            },
            Generic::Bin(b) => {
                if b.len() as u64 > MAX_MAP32 {
                    return Err(Error::simple(Reason::TooBig));
                }
                out.push(BIN32);
                write_be32(out, b.len() as u32);
                out.extend_from_slice(b.as_slice());
                proof {
                    assert(out@ =~= old(out)@ + wire_bytes(self@));
                }
                Ok(())
            },
            Generic::Str(s) => {
                let bytes: &[u8] = s.as_str().as_bytes();
                if bytes.len() as u64 > MAX_MAP32 {
                    return Err(Error::simple(Reason::TooBig));
                }
                out.push(STR32);
                write_be32(out, bytes.len() as u32);
                out.extend_from_slice(bytes);
                proof {
                    assert(out@ =~= old(out)@ + wire_bytes(self@));
                }
                Ok(())
            },
            Generic::Array(v) => {
                proof {
                    assert(decreases_to!(*self => (*self)->Array_0));
                }
                Self::serialize_array(v, out)
            },
            Generic::Mapping(m) => {
                proof {
                    assert(decreases_to!(*self => (*self)->Mapping_0));
                }
                Self::serialize_mapping(m, out)
            },
        }
    }

    /// Encodes an array: its tag, its 32-bit count, then every element.
    #[verifier::loop_isolation(false)]
    fn serialize_array(v: &Vec<Generic>, out: &mut Vec<u8>) -> (r: Result<(), Error>)
        ensures
            r is Ok <==> encodable(GenericModel::Array(models_of(v@))),
            r is Ok ==> final(out)@ == old(out)@ + wire_bytes(GenericModel::Array(models_of(v@))),
            r matches Err(e) ==> e.reason == Reason::TooBig,
            old(out)@.is_prefix_of(final(out)@),
        decreases *v, 1int,
    {
        let ghost items = models_of(v@);
        if v.len() as u64 > MAX_MAP32 {
            return Err(Error::simple(Reason::TooBig));
        }
        out.push(ARRAY32);
        write_be32(out, v.len() as u32);
        let ghost prefix = out@;
        let n = v.len();
        proof {
            assert(items.len() == n);
            assert(items.take(0) =~= Seq::<GenericModel>::empty());
        }
        let mut i: usize = 0;
        while i < n
            invariant
                i <= n,
                out@ == prefix + wire_bytes_seq(items.take(i as int)),
                forall|j: int| 0 <= j < i ==> encodable(#[trigger] items[j]),
            decreases n - i,
        {
            proof {
                assert(decreases_to!(*v => v@[i as int]));
            }
            let r = (&v[i]).serialize(out);
            if let Err(e) = r {
                proof {
                    assert(items[i as int] == v@[i as int]@);
                    assert(!encodable(items[i as int]));
                }
                return Err(e);
            }
            proof {
                lemma_wire_bytes_seq_take(items, i as int);
                assert(items[i as int] == v@[i as int]@);
            }
            i = i + 1;
        }
        proof {
            assert(items.take(n as int) =~= items);
            assert(out@ =~= old(out)@ + wire_bytes(GenericModel::Array(items)));
        }
        Ok(())
    }

    /// Encodes a map through the framer in known-size mode: the minimal
    /// header first, then each key and value in wire order.
    #[verifier::loop_isolation(false)]
    #[verifier::rlimit(60)]
    fn serialize_mapping(m: &Vec<(Generic, Generic)>, out: &mut Vec<u8>) -> (r: Result<(), Error>)
        ensures
            r is Ok <==> encodable(GenericModel::Mapping(pair_models_of(m@))),
            r is Ok ==> final(out)@ == old(out)@ + wire_bytes(
                GenericModel::Mapping(pair_models_of(m@)),
            ),
            r matches Err(e) ==> e.reason == Reason::TooBig,
            old(out)@.is_prefix_of(final(out)@),
        decreases *m, 1int,
    {
        let ghost pairs = pair_models_of(m@);
        let mut ser = MapSerializer::new();
        let r = ser.hint_size(Some(m.len()), out);
        if let Err(e) = r {
            return Err(e);
        }
        let ghost prefix = out@;
        let n = m.len();
        proof {
            assert(pairs.len() == n);
            assert(pairs.take(0) =~= Seq::<(GenericModel, GenericModel)>::empty());
        }
        let mut i: usize = 0;
        while i < n
            invariant
                i <= n,
                n as u64 <= MAX_MAP32,
                ser.item_count() == 2 * i,
                ser.mode() == (FramerMode::Streaming { size: n }),
                out@ == prefix + wire_bytes_pairs(pairs.take(i as int)),
                forall|j: int|
                    #![trigger pairs[j]]
                    0 <= j < i ==> encodable(pairs[j].0) && encodable(pairs[j].1),
            decreases n - i,
        {
            proof {
                assert(decreases_to!(*m => m@[i as int]));
                assert(decreases_to!(m@[i as int] => m@[i as int].0));
                assert(decreases_to!(m@[i as int] => m@[i as int].1));
            }
            let r = ser.serialize_element(&m[i].0, out);
            if let Err(e) = r {
                proof {
                    assert(pairs[i as int].0 == m@[i as int].0@);
                    assert(!encodable(pairs[i as int].0));
                    assert(!(encodable(pairs[i as int].0) && encodable(pairs[i as int].1)));
                    assert(!encodable(GenericModel::Mapping(pairs)));
                }
                return Err(e);
            }
            let r = ser.serialize_element(&m[i].1, out);
            if let Err(e) = r {
                proof {
                    assert(pairs[i as int].1 == m@[i as int].1@);
                    assert(!encodable(pairs[i as int].1));
                    assert(!(encodable(pairs[i as int].0) && encodable(pairs[i as int].1)));
                    assert(!encodable(GenericModel::Mapping(pairs)));
                }
                return Err(e);
            }
            proof {
                lemma_wire_bytes_pairs_take(pairs, i as int);
                assert(pairs[i as int].0 == m@[i as int].0@);
                assert(pairs[i as int].1 == m@[i as int].1@);
            }
            i = i + 1;
        }
        let r = ser.finish(out);
        proof {
            assert(r is Ok);
            assert(pairs.take(n as int) =~= pairs);
            assert(out@ =~= old(out)@ + wire_bytes(GenericModel::Mapping(pairs)));
        }
        r
    }

    /// True exactly when this value is `Nil`.
    pub fn is_nil(&self) -> (r: bool)
        ensures
            r == (self@ is Nil),
    {
        if let Generic::Nil = self {
            true
        } else {
            false
        }
    }

    /// True exactly when this value is boolean false.
    pub fn is_false(&self) -> (r: bool)
        ensures
            r == (self@ is False),
    {
        if let Generic::False = self {
            true
        } else {
            false
        }
    }

    /// True exactly when this value is boolean true.
    pub fn is_true(&self) -> (r: bool)
        ensures
            r == (self@ is True),
    {
        if let Generic::True = self {
            true
        } else {
            false
        }
    }

    /// True exactly when this value is a signed integer.
    pub fn is_int(&self) -> (r: bool)
        ensures
            r == (self@ is Int),
    {
        if let Generic::Int(_) = self {
            true
        } else {
            false
        }
    }

    /// True exactly when this value is an unsigned integer.
    pub fn is_uint(&self) -> (r: bool)
        ensures
            r == (self@ is UInt),
    {
        if let Generic::UInt(_) = self {
            true
        } else {
            false
        }
    }

    /// True exactly when this value is a 32-bit float bit pattern.
    pub fn is_f32(&self) -> (r: bool)
        ensures
            r == (self@ is F32),
    {
        if let Generic::F32(_) = self {
            true
        } else {
            false
        }
    }

    /// True exactly when this value is a 64-bit float bit pattern.
    pub fn is_f64(&self) -> (r: bool)
        ensures
            r == (self@ is F64),
    {
        if let Generic::F64(_) = self {
            true
        } else {
            false
        }
    }

    /// True exactly when this value is a byte sequence.
    pub fn is_bin(&self) -> (r: bool)
        ensures
            r == (self@ is Bin),
    {
        if let Generic::Bin(_) = self {
            true
        } else {
            false
        }
    }

    /// True exactly when this value is text.
    pub fn is_str(&self) -> (r: bool)
        ensures
            r == (self@ is Str),
    {
        if let Generic::Str(_) = self {
            true
        } else {
            false
        }
    }

    /// True exactly when this value is an array.
    pub fn is_array(&self) -> (r: bool)
        ensures
            r == (self@ is Array),
    {
        if let Generic::Array(_) = self {
            true
        } else {
            false
        }
    }

    /// True exactly when this value is a map.
    pub fn is_map(&self) -> (r: bool)
        ensures
            r == (self@ is Mapping),
    {
        if let Generic::Mapping(_) = self {
            true
        } else {
            false
        }
    }
}

/// The wire shape of a unit variant: a bare text value holding the name.
pub open spec fn unit_variant_model(name: Seq<char>) -> GenericModel {
    GenericModel::Str(name)
}

/// The wire shape of a newtype variant: a single-entry map from the
/// variant name to its one payload value.
pub open spec fn newtype_variant_model(name: Seq<char>, payload: GenericModel) -> GenericModel {
    GenericModel::Mapping(seq![(GenericModel::Str(name), payload)])
}

/// The wire shape of a tuple variant: a single-entry map from the
/// variant name to the array of its positional fields.
pub open spec fn tuple_variant_model(name: Seq<char>, items: Seq<GenericModel>) -> GenericModel {
    GenericModel::Mapping(seq![(GenericModel::Str(name), GenericModel::Array(items))])
}

/// The wire shape of a struct variant: a single-entry map from the
/// variant name to the map of its named fields.
pub open spec fn struct_variant_model(
    name: Seq<char>,
    fields: Seq<(GenericModel, GenericModel)>,
) -> GenericModel {
    GenericModel::Mapping(seq![(GenericModel::Str(name), GenericModel::Mapping(fields))])
}

/// What decoding a sum type reads as the discriminant: the whole value
/// when it is text (a unit variant), the key of a single-entry map
/// otherwise. A map of any other entry count is a length violation;
/// any other shape cannot be an enum.
pub open spec fn variant_discriminant(g: GenericModel) -> Result<GenericModel, Reason> {
    match g {
        GenericModel::Str(s) => Ok(GenericModel::Str(s)),
        GenericModel::Mapping(pairs) => if pairs.len() == 1 {
            Ok(pairs[0].0)
        } else {
            Err(Reason::BadLength)
        },
        _ => Err(Reason::InvalidType),
    }
}

/// What decoding a sum type reads as the payload: the value of a
/// single-entry map. A map of any other entry count is a length
/// violation; any other shape cannot carry a variant payload.
pub open spec fn variant_payload(g: GenericModel) -> Result<GenericModel, Reason> {
    match g {
        GenericModel::Mapping(pairs) => if pairs.len() == 1 {
            Ok(pairs[0].1)
        } else {
            Err(Reason::BadLength)
        },
        _ => Err(Reason::InvalidType),
    }
}

/// Round-trip of the variant wire convention: reading the discriminant
/// and payload out of each encoded variant shape yields exactly the
/// name and payload that were encoded.
pub proof fn lemma_variant_round_trip(
    name: Seq<char>,
    payload: GenericModel,
    items: Seq<GenericModel>,
    fields: Seq<(GenericModel, GenericModel)>,
)
    ensures
        variant_discriminant(unit_variant_model(name)) == Ok::<GenericModel, Reason>(
            GenericModel::Str(name),
        ),
        variant_discriminant(newtype_variant_model(name, payload)) == Ok::<GenericModel, Reason>(
            GenericModel::Str(name),
        ),
        variant_payload(newtype_variant_model(name, payload)) == Ok::<GenericModel, Reason>(
            payload,
        ),
        variant_discriminant(tuple_variant_model(name, items)) == Ok::<GenericModel, Reason>(
            GenericModel::Str(name),
        ),
        variant_payload(tuple_variant_model(name, items)) == Ok::<GenericModel, Reason>(
            GenericModel::Array(items),
        ),
        variant_discriminant(struct_variant_model(name, fields)) == Ok::<GenericModel, Reason>(
            GenericModel::Str(name),
        ),
        variant_payload(struct_variant_model(name, fields)) == Ok::<GenericModel, Reason>(
            GenericModel::Mapping(fields),
        ),
{
}

} // verus!
