use vstd::prelude::*;

use crate::error::{Error, Reason};
use crate::generic::{
    models_of, pair_models_of, variant_discriminant, variant_payload, Generic, GenericModel,
};

verus! {

broadcast use vstd::std_specs::vec::group_vec_axioms;

/// A lazy, finite, non-restartable cursor over an array's elements:
/// the decode source for sequence-shaped consumers.
pub struct SeqVisitor<'a> {
    elems: &'a Vec<Generic>,
    index: usize,
}

impl<'a> SeqVisitor<'a> {
    /// The elements this cursor walks.
    pub closed spec fn backing(&self) -> Seq<Generic> {
        self.elems@
    }

    /// How many elements have been handed out so far.
    pub closed spec fn position(&self) -> int {
        self.index as int
    }

    /// The cursor never points past the end of its elements.
    pub closed spec fn wf(&self) -> bool {
        self.index as int <= self.elems@.len()
    }

    /// A cursor at the start of `elems`.
    pub fn new(elems: &'a Vec<Generic>) -> (r: SeqVisitor<'a>)
        ensures
            r.backing() == elems@,
            r.position() == 0,
            r.wf(),
    {
        SeqVisitor { elems, index: 0 }
    }

    /// The next element, or `None` once the cursor is exhausted.
    pub fn visit(&mut self) -> (r: Option<&'a Generic>)
        ensures
            final(self).backing() == old(self).backing(),
            old(self).wf() ==> final(self).wf(),
            old(self).position() < old(self).backing().len() ==> {
                &&& r matches Some(g) && *g == old(self).backing()[old(self).position()]
                &&& final(self).position() == old(self).position() + 1
            },
            old(self).position() >= old(self).backing().len() ==> {
                &&& r is None
                &&& final(self).position() == old(self).position()
            },
    {
        let elems: &'a Vec<Generic> = self.elems;
        if self.index < elems.len() {
            let g = &elems[self.index];
            self.index = self.index + 1;
            Some(g)
        } else {
            None
        }
    }

    /// Succeeds only when every element was consumed; leftover elements
    /// are a length violation.
    pub fn end(&self) -> (r: Result<(), Error>)
        ensures
            r is Ok <==> self.position() >= self.backing().len(),
            r matches Err(e) ==> e.reason == Reason::BadLength,
    {
        if self.index >= self.elems.len() {
            Ok(())
        } else {
            Err(Error::simple(Reason::BadLength))
        }
    }

    /// How many elements are still to come.
    pub fn size_hint(&self) -> (r: usize)
        ensures
            self.position() <= self.backing().len() ==> r == self.backing().len()
                - self.position(),
            self.position() > self.backing().len() ==> r == 0,
    {
        if self.index >= self.elems.len() {
            0
        } else {
            self.elems.len() - self.index
        }
    }
}

/// A lazy, finite, non-restartable cursor over a map's entries: the
/// decode source for map-shaped consumers. Each key must be paired with
/// its following value before the next key is requested.
pub struct MapVisitor<'a> {
    pairs: &'a Vec<(Generic, Generic)>,
    index: usize,
    value: Option<&'a Generic>,
}

impl<'a> MapVisitor<'a> {
    /// The key/value pairs this cursor walks.
    pub closed spec fn backing(&self) -> Seq<(Generic, Generic)> {
        self.pairs@
    }

    /// How many pairs have been entered so far.
    pub closed spec fn position(&self) -> int {
        self.index as int
    }

    /// The cursor never points past the end of its pairs.
    pub closed spec fn wf(&self) -> bool {
        self.index as int <= self.pairs@.len()
    }

    /// The value whose key was handed out and that has not been asked
    /// for yet, if any.
    pub closed spec fn pending(&self) -> Option<Generic> {
        match self.value {
            Some(g) => Some(*g),
            None => None,
        }
    }

    /// A cursor at the start of `pairs`, with no value pending.
    pub fn new(pairs: &'a Vec<(Generic, Generic)>) -> (r: MapVisitor<'a>)
        ensures
            r.backing() == pairs@,
            r.position() == 0,
            r.pending() is None,
            r.wf(),
    {
        MapVisitor { pairs, index: 0, value: None }
    }

    /// The next key, or `None` once the cursor is exhausted; the
    /// matching value becomes pending.
    pub fn visit_key(&mut self) -> (r: Option<&'a Generic>)
        ensures
            final(self).backing() == old(self).backing(),
            old(self).wf() ==> final(self).wf(),
            old(self).position() < old(self).backing().len() ==> {
                &&& r matches Some(k) && *k == old(self).backing()[old(self).position()].0
                &&& final(self).position() == old(self).position() + 1
                &&& final(self).pending() == Some(
                    old(self).backing()[old(self).position()].1,
                )
            },
            old(self).position() >= old(self).backing().len() ==> {
                &&& r is None
                &&& final(self).position() == old(self).position()
                &&& final(self).pending() == old(self).pending()
            },
    {
        let pairs: &'a Vec<(Generic, Generic)> = self.pairs;
        if self.index < pairs.len() {
            let pair = &pairs[self.index];
            self.index = self.index + 1;
            self.value = Some(&pair.1);
            Some(&pair.0)
        } else {
            None
        }
    }

    /// The pending value; asking with none pending is an end-of-stream
    /// failure.
    pub fn visit_value(&mut self) -> (r: Result<&'a Generic, Error>)
        ensures
            final(self).backing() == old(self).backing(),
            final(self).position() == old(self).position(),
            old(self).wf() ==> final(self).wf(),
            final(self).pending() is None,
            old(self).pending() matches Some(v) ==> (r matches Ok(g) && *g == v),
            old(self).pending() is None ==> (r matches Err(e) && e.reason == Reason::EndOfStream),
    {
        let taken = self.value.take();
        if let Some(v) = taken {
            Ok(v)
        } else {
            Err(Error::simple(Reason::EndOfStream))
        }
    }

    /// The next whole pair, or `None` once the cursor is exhausted; any
    /// pending value is left as it is.
    pub fn visit(&mut self) -> (r: Option<(&'a Generic, &'a Generic)>)
        ensures
            final(self).backing() == old(self).backing(),
            final(self).pending() == old(self).pending(),
            old(self).wf() ==> final(self).wf(),
            old(self).position() < old(self).backing().len() ==> {
                &&& r matches Some(kv) && *kv.0 == old(self).backing()[old(self).position()].0
                    && *kv.1 == old(self).backing()[old(self).position()].1
                &&& final(self).position() == old(self).position() + 1
            },
            old(self).position() >= old(self).backing().len() ==> {
                &&& r is None
                &&& final(self).position() == old(self).position()
            },
    {
        let pairs: &'a Vec<(Generic, Generic)> = self.pairs;
        if self.index < pairs.len() {
            let pair = &pairs[self.index];
            self.index = self.index + 1;
            Some((&pair.0, &pair.1))
        } else {
            None
        }
    }

    /// Succeeds only when every pair was consumed; leftover pairs are a
    /// length violation.
    pub fn end(&self) -> (r: Result<(), Error>)
        ensures
            r is Ok <==> self.position() >= self.backing().len(),
            r matches Err(e) ==> e.reason == Reason::BadLength,
    {
        if self.index >= self.pairs.len() {
            Ok(())
        } else {
            Err(Error::simple(Reason::BadLength))
        }
    }

    /// How many pairs are still to come.
    pub fn size_hint(&self) -> (r: usize)
        ensures
            self.position() <= self.backing().len() ==> r == self.backing().len()
                - self.position(),
            self.position() > self.backing().len() ==> r == 0,
    {
        if self.index >= self.pairs.len() {
            0
        } else {
            self.pairs.len() - self.index
        }
    }
}

/// Reads a sum-type value out of a [`Generic`] per the variant wire
/// convention, as an immutable walk of the value tree.
pub struct VariantVisitor<'a> {
    parent: &'a Generic,
}

impl<'a> VariantVisitor<'a> {
    /// The model of the value this visitor reads.
    pub closed spec fn parent_model(&self) -> GenericModel {
        self.parent@
    }

    /// A visitor over `parent`.
    pub fn new(parent: &'a Generic) -> (r: VariantVisitor<'a>)
        ensures
            r.parent_model() == parent@,
    {
        VariantVisitor { parent }
    }

    /// The discriminant: the whole value for a unit variant encoded as
    /// text, else the key of the single-entry map. Any other shape is
    /// rejected as [`variant_discriminant`] says.
    pub fn visit_variant(&self) -> (r: Result<&'a Generic, Error>)
        ensures
            match variant_discriminant(self.parent_model()) {
                Ok(d) => r matches Ok(g) && g@ == d,
                Err(reason) => r matches Err(e) && e.reason == reason,
            },
    {
        let parent: &'a Generic = self.parent;

        // unit variants are just a string, with no structure to unpack
        if parent.is_str() {
            return Ok(parent);
        }

        match parent {
            // variants of other kinds are single-entry maps
            Generic::Mapping(m) => {
                proof {
                    assert(self.parent_model() == GenericModel::Mapping(pair_models_of(m@)));
                    assert(pair_models_of(m@).len() == m@.len());
                }
                if m.len() != 1 {
                    return Err(Error::simple(Reason::BadLength));
                }
                proof {
                    assert(pair_models_of(m@)[0] == (m@[0].0@, m@[0].1@));
                }
                Ok(&m[0].0)
            },
            // other shapes cannot be an enum
            _ => Err(Error::simple(Reason::InvalidType)),
        }
    }

    /// The payload of a newtype variant: the value of the single-entry
    /// map, rejected as [`variant_payload`] says otherwise.
    pub fn visit_newtype(&self) -> (r: Result<&'a Generic, Error>)
        ensures
            match variant_payload(self.parent_model()) {
                Ok(p) => r matches Ok(g) && g@ == p,
                Err(reason) => r matches Err(e) && e.reason == reason,
            },
    {
        let parent: &'a Generic = self.parent;
        match parent {
            Generic::Mapping(m) => {
                proof {
                    assert(self.parent_model() == GenericModel::Mapping(pair_models_of(m@)));
                    assert(pair_models_of(m@).len() == m@.len());
                }
                if m.len() != 1 {
                    return Err(Error::simple(Reason::BadLength));
                }
                proof {
                    assert(pair_models_of(m@)[0] == (m@[0].0@, m@[0].1@));
                }
                Ok(&m[0].1)
            },
            _ => Err(Error::simple(Reason::InvalidType)),
        }
    }

    /// The payload of a tuple variant, to be decoded as an array.
    pub fn visit_tuple(&self) -> (r: Result<&'a Generic, Error>)
        ensures
            match variant_payload(self.parent_model()) {
                Ok(p) => r matches Ok(g) && g@ == p,
                Err(reason) => r matches Err(e) && e.reason == reason,
            },
    {
        self.visit_newtype()
    }

    /// The payload of a struct variant, to be decoded as a field map.
    pub fn visit_struct(&self) -> (r: Result<&'a Generic, Error>)
        ensures
            match variant_payload(self.parent_model()) {
                Ok(p) => r matches Ok(g) && g@ == p,
                Err(reason) => r matches Err(e) && e.reason == reason,
            },
    {
        self.visit_tuple()
    }

    /// A unit variant carries nothing beyond its discriminant.
    pub fn visit_unit(&self) -> (r: Result<(), Error>)
        ensures
            r is Ok,
    {
        Ok(())
    }
}

/// Builds a [`Generic`] from decode callbacks: the visitor through which
/// any wire source (a byte reader outside this crate, or a `Generic`
/// itself) yields a dynamic value.
pub struct GenericVisitor;

impl GenericVisitor {
    /// A boolean becomes `True` or `False`.
    pub fn visit_bool(&self, v: bool) -> (r: Generic)
        ensures
            r@ == if v {
                GenericModel::True
            } else {
                GenericModel::False
            },
    {
        if v {
            Generic::True
        } else {
            Generic::False
        }
    }

    /// A signed integer becomes `Int`.
    pub fn visit_i64(&self, v: i64) -> (r: Generic)
        ensures
            r@ == GenericModel::Int(v),
    {
        Generic::Int(v)
    }

    /// An unsigned integer becomes `UInt`.
    pub fn visit_u64(&self, v: u64) -> (r: Generic)
        ensures
            r@ == GenericModel::UInt(v),
    {
        Generic::UInt(v)
    }

    /// A 32-bit float bit pattern becomes `F32`.
    pub fn visit_f32(&self, bits: u32) -> (r: Generic)
        ensures
            r@ == GenericModel::F32(bits),
    {
        Generic::F32(bits)
    }

    /// A 64-bit float bit pattern becomes `F64`.
    pub fn visit_f64(&self, bits: u64) -> (r: Generic)
        ensures
            r@ == GenericModel::F64(bits),
    {
        Generic::F64(bits)
    }

    /// Borrowed text becomes an owned `Str`.
    pub fn visit_str(&self, v: &str) -> (r: Generic)
        ensures
            r@ == GenericModel::Str(v@),
    {
        Generic::Str(v.to_owned())
    }

    /// Owned text becomes `Str`.
    pub fn visit_string(&self, v: String) -> (r: Generic)
        ensures
            r@ == GenericModel::Str(v@),
    {
        Generic::Str(v)
    }

    /// A unit becomes `Nil`.
    pub fn visit_unit(&self) -> (r: Generic)
        ensures
            r@ == GenericModel::Nil,
    {
        Generic::Nil
    }

    /// An absent optional becomes `Nil`.
    pub fn visit_none(&self) -> (r: Generic)
        ensures
            r@ == GenericModel::Nil,
    {
        self.visit_unit()
    }

    /// A present optional is the value itself.
    pub fn visit_some(&self, v: &Generic) -> (r: Result<Generic, Error>)
        ensures
            r matches Ok(g) && g@ == v@,
    {
        v.deserialize()
    }

    /// A newtype wrapper is transparent: the inner value itself.
    pub fn visit_newtype_struct(&self, v: &Generic) -> (r: Result<Generic, Error>)
        ensures
            r matches Ok(g) && g@ == v@,
    {
        v.deserialize()
    }

    /// Borrowed bytes become an owned `Bin`.
    pub fn visit_bytes(&self, v: &[u8]) -> (r: Generic)
        ensures
            r@ == GenericModel::Bin(v@),
    {
        Generic::Bin(vstd::slice::slice_to_vec(v))
    }

    /// An owned byte buffer becomes `Bin`.
    pub fn visit_byte_buf(&self, v: Vec<u8>) -> (r: Generic)
        ensures
            r@ == GenericModel::Bin(v@),
    {
        Generic::Bin(v)
    }

    /// Drains a sequence cursor into an `Array`, decoding each element.
    #[verifier::loop_isolation(false)]
    pub fn visit_seq(&self, v: SeqVisitor) -> (r: Result<Generic, Error>)
        requires
            v.wf(),
        ensures
            r matches Ok(g) && g@ == GenericModel::Array(
                models_of(v.backing().skip(v.position())),
            ),
        decreases v.backing(), 1int,
    {
        let ghost all = v.backing();
        let ghost start = v.position();
        let mut v = v;
        let mut buf: Vec<Generic> = Vec::new();
        while v.size_hint() > 0
            invariant
                v.wf(),
                v.backing() == all,
                start <= v.position() <= all.len(),
                buf@.len() == v.position() - start,
                forall|j: int| 0 <= j < buf@.len() ==> buf@[j]@ == all[start + j]@,
            decreases all.len() - v.position(),
        {
            let next = v.visit();
            match next {
                Some(item) => {
                    proof {
                        assert(decreases_to!(all => all[v.position() - 1]));
                    }
                    let d = item.deserialize();
                    match d {
                        Ok(g) => {
                            buf.push(g);
                        },
                        Err(e) => {
                            proof {
                                assert(false);
                            }
                            return Err(e);
                        },
                    }
                },
                None => {
                    proof {
                        assert(false);
                    }
                },
            }
        }
        proof {
            assert(models_of(buf@) =~= models_of(all.skip(start)));
        }
        Ok(Generic::Array(buf))
    }

    /// Drains a map cursor into a `Mapping`, decoding each key and value.
    #[verifier::loop_isolation(false)]
    pub fn visit_map(&self, v: MapVisitor) -> (r: Result<Generic, Error>)
        requires
            v.wf(),
        ensures
            r matches Ok(g) && g@ == GenericModel::Mapping(
                pair_models_of(v.backing().skip(v.position())),
            ),
        decreases v.backing(), 1int,
    {
        let ghost all = v.backing();
        let ghost start = v.position();
        let mut v = v;
        let mut buf: Vec<(Generic, Generic)> = Vec::new();
        while v.size_hint() > 0
            invariant
                v.wf(),
                v.backing() == all,
                start <= v.position() <= all.len(),
                buf@.len() == v.position() - start,
                forall|j: int|
                    #![trigger buf@[j]]
                    0 <= j < buf@.len() ==> buf@[j].0@ == all[start + j].0@ && buf@[j].1@ == all[
                        start + j
                    ].1@,
            decreases all.len() - v.position(),
        {
            let next = v.visit();
            match next {
                Some((key, value)) => {
                    proof {
                        assert(decreases_to!(all => all[v.position() - 1]));
                        assert(decreases_to!(all[v.position() - 1] => all[v.position() - 1].0));
                        assert(decreases_to!(all[v.position() - 1] => all[v.position() - 1].1));
                    }
                    let dk = key.deserialize();
                    let dv = value.deserialize();
                    match (dk, dv) {
                        (Ok(k), Ok(w)) => {
                            buf.push((k, w));
                        },
                        (Err(e), _) => {
                            proof {
                                assert(false);
                            }
                            return Err(e);
                        },
                        (_, Err(e)) => {
                            proof {
                                assert(false);
                            }
                            return Err(e);
                        },
                    }
                },
                None => {
                    proof {
                        assert(false);
                    }
                },
            }
        }
        proof {
            assert(pair_models_of(buf@) =~= pair_models_of(all.skip(start)));
        }
        Ok(Generic::Mapping(buf))
    }
}

impl Generic {
    /// Decodes a fresh `Generic` out of this one by dispatching its
    /// shape to the matching [`GenericVisitor`] callback: the decoded
    /// value models the same tree.
    pub fn deserialize(&self) -> (r: Result<Generic, Error>)
        ensures
            r matches Ok(g) && g@ == self@,
        decreases *self, 2int,
    {
        let visitor = GenericVisitor;
        match self {
            Generic::Nil => Ok(visitor.visit_unit()),
            Generic::False => Ok(visitor.visit_bool(false)),
            Generic::True => Ok(visitor.visit_bool(true)),
            Generic::Int(i) => Ok(visitor.visit_i64(*i)),
            Generic::UInt(u) => Ok(visitor.visit_u64(*u)),
            Generic::F32(b) => Ok(visitor.visit_f32(*b)),
            Generic::F64(b) => Ok(visitor.visit_f64(*b)),
            Generic::Bin(b) => Ok(visitor.visit_bytes(b.as_slice())),
            Generic::Str(s) => Ok(visitor.visit_str(s.as_str())),
            Generic::Array(v) => {
                proof {
                    assert(decreases_to!(*self => (*self)->Array_0));
                    assert(decreases_to!(*v => v@));
                }
                let sv = SeqVisitor::new(v);
                proof {
                    assert(sv.backing().skip(0) =~= v@);
                }
                visitor.visit_seq(sv)
            },
            Generic::Mapping(m) => {
                proof {
                    assert(decreases_to!(*self => (*self)->Mapping_0));
                    assert(decreases_to!(*m => m@));
                }
                let mv = MapVisitor::new(m);
                proof {
                    assert(mv.backing().skip(0) =~= m@);
                }
                visitor.visit_map(mv)
            },
        }
    }

    /// Opens this value for sum-type decoding per the variant wire
    /// convention.
    pub fn deserialize_enum<'a>(&'a self) -> (r: VariantVisitor<'a>)
        ensures
            r.parent_model() == self@,
    {
        VariantVisitor::new(self)
    }
}

} // verus!
