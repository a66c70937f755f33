use vstd::prelude::*;

use crate::error::{Error, Reason};
use crate::generic::{
    models_of, newtype_variant_model, pair_models_of, struct_variant_model, tuple_variant_model,
    unit_variant_model, Generic, GenericModel,
};

verus! {

broadcast use vstd::std_specs::vec::group_vec_axioms;

/// A typed value that knows how to encode itself into a [`VecGeneric`]
/// builder, pushing the dynamic values it stands for.
///
/// An implementation declares in `enc_items` what a successful encode
/// appends and in `enc_ok` when it succeeds; a well-formed typed value
/// appends exactly one top-level item, which
/// [`Generic::from_value`] enforces at run time. An implementation that
/// leaves the defaults in place claims to append nothing and promises
/// no success; only one that states what it appends gets the builder's
/// and `from_value`'s guarantees.
pub trait Encode {
    /// The items a successful encode appends to the builder.
    open spec fn enc_items(&self) -> Seq<GenericModel> {
        Seq::empty()
    }

    /// Whether encoding this value succeeds.
    open spec fn enc_ok(&self) -> bool {
        false
    }

    /// Encodes this value, appending its items to `out`.
    fn encode(&self, out: &mut VecGeneric) -> (r: Result<(), Error>)
        ensures
            self.enc_ok() ==> r is Ok,
            r is Ok ==> final(out)@ == old(out)@ + self.enc_items(),
    ;
}

/// Relies on String::push: appending one character appends exactly that
/// character to the text.
#[verifier::external_body]
fn push_char(s: &mut String, c: char)
    ensures
        final(s)@ == old(s)@.push(c),
{
    s.push(c)
}

/// The pairing of equally long key and value sequences, in order.
pub open spec fn zip_models(ks: Seq<GenericModel>, vs: Seq<GenericModel>) -> Seq<
    (GenericModel, GenericModel),
> {
    Seq::new(ks.len(), |i: int| (ks[i], vs[i]))
}

/// An encoding target that collects dynamic values in order: the builder
/// through which typed values become [`Generic`] trees.
pub struct VecGeneric(Vec<Generic>);

impl View for VecGeneric {
    type V = Seq<GenericModel>;

    closed spec fn view(&self) -> Seq<GenericModel> {
        models_of(self.0@)
    }
}

/// The in-progress state of a map-shaped collection being built: keys
/// and values collect separately and are zipped when the map ends.
pub struct MapGeneric {
    keys: VecGeneric,
    values: VecGeneric,
}

impl MapGeneric {
    /// The keys collected so far.
    pub closed spec fn keys(&self) -> Seq<GenericModel> {
        self.keys@
    }

    /// The values collected so far.
    pub closed spec fn values(&self) -> Seq<GenericModel> {
        self.values@
    }
}

impl VecGeneric {
    /// An empty builder.
    pub fn new() -> (r: VecGeneric)
        ensures
            r@ == Seq::<GenericModel>::empty(),
    {
        let r = VecGeneric(Vec::new());
        proof {
            assert(r@ =~= Seq::<GenericModel>::empty());
        }
        r
    }

    /// How many items have been collected.
    pub fn len(&self) -> (r: usize)
        ensures
            r == self@.len(),
    {
        self.0.len()
    }

    /// True when no item has been collected.
    pub fn is_empty(&self) -> (r: bool)
        ensures
            r == (self@.len() == 0),
    {
        self.0.is_empty()
    }

    /// Removes and returns the most recently collected item, if any.
    pub fn pop(&mut self) -> (r: Option<Generic>)
        ensures
            old(self)@.len() > 0 ==> {
                &&& r matches Some(g) && g@ == old(self)@.last()
                &&& final(self)@ == old(self)@.drop_last()
            },
            old(self)@.len() == 0 ==> {
                &&& r is None
                &&& final(self)@ == old(self)@
            },
    {
        let r = self.0.pop();
        proof {
            if old(self)@.len() > 0 {
                assert(final(self)@ =~= old(self)@.drop_last());
            } else {
                assert(final(self)@ =~= old(self)@);
            }
        }
        r
    }

    /// Collects one already-built dynamic value.
    pub fn push_generic(&mut self, g: Generic)
        ensures
            final(self)@ == old(self)@.push(g@),
    {
        self.0.push(g);
        proof {
            assert(final(self)@ =~= old(self)@.push(g@));
        }
    }

    /// Encodes a boolean.
    pub fn serialize_bool(&mut self, v: bool)
        ensures
            final(self)@ == old(self)@.push(
                if v {
                    GenericModel::True
                } else {
                    GenericModel::False
                },
            ),
    {
        if v {
            self.push_generic(Generic::True);
        } else {
            self.push_generic(Generic::False);
        }
    }

    /// Encodes a signed integer.
    pub fn serialize_i64(&mut self, v: i64)
        ensures
            final(self)@ == old(self)@.push(GenericModel::Int(v)),
    {
        self.push_generic(Generic::Int(v));
    }

    /// Encodes an unsigned integer.
    pub fn serialize_u64(&mut self, v: u64)
        ensures
            final(self)@ == old(self)@.push(GenericModel::UInt(v)),
    {
        self.push_generic(Generic::UInt(v));
    }

    /// Encodes a 32-bit float given as its bit pattern.
    pub fn serialize_f32(&mut self, bits: u32)
        ensures
            final(self)@ == old(self)@.push(GenericModel::F32(bits)),
    {
        self.push_generic(Generic::F32(bits));
    }

    /// Encodes a 64-bit float given as its bit pattern.
    pub fn serialize_f64(&mut self, bits: u64)
        ensures
            final(self)@ == old(self)@.push(GenericModel::F64(bits)),
    {
        self.push_generic(Generic::F64(bits));
    }

    /// Encodes borrowed text.
    pub fn serialize_str(&mut self, v: &str)
        ensures
            final(self)@ == old(self)@.push(GenericModel::Str(v@)),
    {
        self.push_generic(Generic::Str(v.to_owned()));
    }

    /// Encodes a single character as one-character text.
    pub fn serialize_char(&mut self, v: char)
        ensures
            final(self)@ == old(self)@.push(GenericModel::Str(seq![v])),
    {
        let mut s = String::new();
        push_char(&mut s, v);
        proof {
            assert(s@ =~= seq![v]);
        }
        self.push_generic(Generic::Str(s));
    }

    /// Encodes a byte sequence.
    pub fn serialize_bytes(&mut self, v: &[u8])
        ensures
            final(self)@ == old(self)@.push(GenericModel::Bin(v@)),
    {
        self.push_generic(Generic::Bin(vstd::slice::slice_to_vec(v)));
    }

    /// Encodes a unit as `Nil`.
    pub fn serialize_unit(&mut self)
        ensures
            final(self)@ == old(self)@.push(GenericModel::Nil),
    {
        self.push_generic(Generic::Nil);
    }

    /// Encodes a unit struct as `Nil`.
    pub fn serialize_unit_struct(&mut self)
        ensures
            final(self)@ == old(self)@.push(GenericModel::Nil),
    {
        self.serialize_unit();
    }

    /// Encodes a unit variant: bare text holding the variant name.
    pub fn serialize_unit_variant(&mut self, variant: &str)
        ensures
            final(self)@ == old(self)@.push(unit_variant_model(variant@)),
    {
        self.serialize_str(variant);
    }

    /// Encodes an absent optional as `Nil`.
    pub fn serialize_none(&mut self)
        ensures
            final(self)@ == old(self)@.push(GenericModel::Nil),
    {
        self.serialize_unit();
    }

    /// Encodes a present optional as the value itself.
    pub fn serialize_some<T: Encode>(&mut self, value: &T) -> (r: Result<(), Error>)
        ensures
            value.enc_ok() ==> r is Ok,
            r is Ok ==> final(self)@ == old(self)@ + value.enc_items(),
    {
        value.encode(self)
    }

    /// Opens a sequence-shaped collection; elements collect in the
    /// returned sub-builder until [`serialize_seq_end`](Self::serialize_seq_end).
    pub fn serialize_seq(&mut self, len: Option<usize>) -> (r: VecGeneric)
        ensures
            final(self)@ == old(self)@,
            r@ == Seq::<GenericModel>::empty(),
    {
        let r = match len {
            Some(capacity) => VecGeneric(Vec::with_capacity(capacity)),
            None => VecGeneric(Vec::new()),
        };
        proof {
            assert(r@ =~= Seq::<GenericModel>::empty());
        }
        r
    }

    /// Encodes one sequence element into the sequence's sub-builder.
    pub fn serialize_seq_elt<T: Encode>(&mut self, state: &mut VecGeneric, value: &T) -> (r:
        Result<(), Error>)
        ensures
            final(self)@ == old(self)@,
            value.enc_ok() ==> r is Ok,
            r is Ok ==> final(state)@ == old(state)@ + value.enc_items(),
    {
        value.encode(state)
    }

    /// Closes a sequence: the collected elements become one `Array`.
    pub fn serialize_seq_end(&mut self, state: VecGeneric)
        ensures
            final(self)@ == old(self)@.push(GenericModel::Array(state@)),
    {
        self.push_generic(Generic::Array(state.0));
    }

    /// Opens a tuple; an alias for a sequence of known length.
    pub fn serialize_tuple(&mut self, len: usize) -> (r: VecGeneric)
        ensures
            final(self)@ == old(self)@,
            r@ == Seq::<GenericModel>::empty(),
    {
        self.serialize_seq(Some(len))
    }

    /// Encodes one tuple element.
    pub fn serialize_tuple_elt<T: Encode>(&mut self, state: &mut VecGeneric, value: &T) -> (r:
        Result<(), Error>)
        ensures
            final(self)@ == old(self)@,
            value.enc_ok() ==> r is Ok,
            r is Ok ==> final(state)@ == old(state)@ + value.enc_items(),
    {
        self.serialize_seq_elt(state, value)
    }

    /// Closes a tuple as an `Array`.
    pub fn serialize_tuple_end(&mut self, state: VecGeneric)
        ensures
            final(self)@ == old(self)@.push(GenericModel::Array(state@)),
    {
        self.serialize_seq_end(state);
    }

    /// Encodes a newtype struct transparently wrapped in a one-element
    /// array, as a tuple struct of arity one.
    pub fn serialize_newtype_struct<T: Encode>(&mut self, value: &T) -> (r: Result<(), Error>)
        ensures
            value.enc_ok() ==> r is Ok,
            r is Ok ==> final(self)@ == old(self)@.push(
                GenericModel::Array(value.enc_items()),
            ),
    {
        let mut state = self.serialize_tuple(1);
        let res = self.serialize_tuple_elt(&mut state, value);
        if let Err(e) = res {
            return Err(e);
        }
        self.serialize_tuple_end(state);
        Ok(())
    }

    /// Encodes a newtype variant: a single-entry map from the variant
    /// name to the payload, which must serialize into exactly one item —
    /// any other count is a length violation.
    pub fn serialize_newtype_variant<T: Encode>(&mut self, variant: &str, value: &T) -> (r: Result<
        (),
        Error,
    >)
        ensures
            value.enc_ok() && value.enc_items().len() == 1 ==> r is Ok,
            r is Ok ==> value.enc_items().len() == 1 && final(self)@ == old(self)@.push(
                newtype_variant_model(variant@, value.enc_items()[0]),
            ),
            value.enc_ok() && value.enc_items().len() != 1 ==> (r matches Err(e) && e.reason
                == Reason::BadLength),
    {
        let mut state = VecGeneric::new();
        let res = value.encode(&mut state);
        if let Err(e) = res {
            return Err(e);
        }

        // serialize the payload directly, rather than leaving it in an array
        if state.len() != 1 {
            // the payload produced an incorrect number of items
            return Err(Error::simple(Reason::BadLength));
        }

        let payload = match state.pop() {
            Some(g) => g,
            None => {
                proof {
                    assert(false);
                }
                Generic::Nil
            },
        };
        let mut entries: Vec<(Generic, Generic)> = Vec::new();
        entries.push((Generic::Str(variant.to_owned()), payload));
        proof {
            assert(pair_models_of(entries@) =~= seq![
                (GenericModel::Str(variant@), value.enc_items()[0]),
            ]);
        }
        self.push_generic(Generic::Mapping(entries));
        Ok(())
    }

    /// Opens a tuple variant's element list.
    pub fn serialize_tuple_variant(&mut self, len: usize) -> (r: VecGeneric)
        ensures
            final(self)@ == old(self)@,
            r@ == Seq::<GenericModel>::empty(),
    {
        self.serialize_tuple(len)
    }

    /// Encodes one positional field of a tuple variant.
    pub fn serialize_tuple_variant_elt<T: Encode>(
        &mut self,
        state: &mut VecGeneric,
        value: &T,
    ) -> (r: Result<(), Error>)
        ensures
            final(self)@ == old(self)@,
            value.enc_ok() ==> r is Ok,
            r is Ok ==> final(state)@ == old(state)@ + value.enc_items(),
    {
        self.serialize_tuple_elt(state, value)
    }

    /// Closes a tuple variant: a single-entry map from the variant name
    /// to the array of collected fields.
    pub fn serialize_tuple_variant_end(&mut self, variant: &str, state: VecGeneric)
        ensures
            final(self)@ == old(self)@.push(tuple_variant_model(variant@, state@)),
    {
        let ghost items = state@;
        let mut entries: Vec<(Generic, Generic)> = Vec::new();
        entries.push((Generic::Str(variant.to_owned()), Generic::Array(state.0)));
        proof {
            assert(pair_models_of(entries@) =~= seq![
                (GenericModel::Str(variant@), GenericModel::Array(items)),
            ]);
        }
        self.push_generic(Generic::Mapping(entries));
    }

    /// Opens a map-shaped collection; keys and values collect in the
    /// returned state until [`serialize_map_end`](Self::serialize_map_end).
    pub fn serialize_map(&mut self, len: Option<usize>) -> (r: MapGeneric)
        ensures
            final(self)@ == old(self)@,
            r.keys() == Seq::<GenericModel>::empty(),
            r.values() == Seq::<GenericModel>::empty(),
    {
        let r = match len {
            Some(capacity) => MapGeneric {
                keys: VecGeneric(Vec::with_capacity(capacity)),
                values: VecGeneric(Vec::with_capacity(capacity)),
            },
            None => MapGeneric { keys: VecGeneric(Vec::new()), values: VecGeneric(Vec::new()) },
        };
        proof {
            assert(r.keys() =~= Seq::<GenericModel>::empty());
            assert(r.values() =~= Seq::<GenericModel>::empty());
        }
        r
    }

    /// Encodes one map key.
    pub fn serialize_map_key<T: Encode>(&mut self, state: &mut MapGeneric, key: &T) -> (r: Result<
        (),
        Error,
    >)
        ensures
            final(self)@ == old(self)@,
            final(state).values() == old(state).values(),
            key.enc_ok() ==> r is Ok,
            r is Ok ==> final(state).keys() == old(state).keys() + key.enc_items(),
    {
        key.encode(&mut state.keys)
    }

    /// Encodes one map value.
    pub fn serialize_map_value<T: Encode>(&mut self, state: &mut MapGeneric, value: &T) -> (r:
        Result<(), Error>)
        ensures
            final(self)@ == old(self)@,
            final(state).keys() == old(state).keys(),
            value.enc_ok() ==> r is Ok,
            r is Ok ==> final(state).values() == old(state).values() + value.enc_items(),
    {
        value.encode(&mut state.values)
    }

    /// Closes a map: equally many keys and values zip, in order, into
    /// one `Mapping`; unequal counts are a length violation.
    pub fn serialize_map_end(&mut self, state: MapGeneric) -> (r: Result<(), Error>)
        ensures
            state.keys().len() == state.values().len() ==> r is Ok,
            r is Ok <==> state.keys().len() == state.values().len(),
            r is Ok ==> final(self)@ == old(self)@.push(
                GenericModel::Mapping(zip_models(state.keys(), state.values())),
            ),
            r matches Err(e) ==> e.reason == Reason::BadLength,
            r is Err ==> final(self)@ == old(self)@,
    {
        let MapGeneric { keys, values } = state;
        if keys.0.len() != values.0.len() {
            return Err(Error::simple(Reason::BadLength));
        }
        let n = keys.0.len();
        let mut entries: Vec<(Generic, Generic)> = Vec::new();
        let mut i: usize = 0;
        while i < n
            invariant
                i <= n,
                n == keys.0@.len(),
                n == values.0@.len(),
                entries@.len() == i,
                forall|j: int|
                    #![trigger entries@[j]]
                    0 <= j < i ==> entries@[j].0@ == keys.0@[j]@ && entries@[j].1@ == values.0@[j]@,
            decreases n - i,
        {
            let k = (&keys.0[i]).clone();
            let v = (&values.0[i]).clone();
            entries.push((k, v));
            i = i + 1;
        }
        proof {
            assert(pair_models_of(entries@) =~= zip_models(
                models_of(keys.0@),
                models_of(values.0@),
            ));
        }
        self.push_generic(Generic::Mapping(entries));
        Ok(())
    }

    /// Opens a struct's field map, with its field count known.
    pub fn serialize_struct(&mut self, len: usize) -> (r: MapGeneric)
        ensures
            final(self)@ == old(self)@,
            r.keys() == Seq::<GenericModel>::empty(),
            r.values() == Seq::<GenericModel>::empty(),
    {
        self.serialize_map(Some(len))
    }

    /// Encodes one named field: the name as a text key, then the value.
    pub fn serialize_struct_elt<T: Encode>(
        &mut self,
        state: &mut MapGeneric,
        key: &str,
        value: &T,
    ) -> (r: Result<(), Error>)
        ensures
            final(self)@ == old(self)@,
            value.enc_ok() ==> r is Ok,
            r is Ok ==> final(state).keys() == old(state).keys().push(GenericModel::Str(key@))
                && final(state).values() == old(state).values() + value.enc_items(),
    {
        state.keys.serialize_str(key);
        value.encode(&mut state.values)
    }

    /// Closes a struct's field map as a `Mapping`.
    pub fn serialize_struct_end(&mut self, state: MapGeneric) -> (r: Result<(), Error>)
        ensures
            state.keys().len() == state.values().len() ==> r is Ok,
            r is Ok <==> state.keys().len() == state.values().len(),
            r is Ok ==> final(self)@ == old(self)@.push(
                GenericModel::Mapping(zip_models(state.keys(), state.values())),
            ),
            r matches Err(e) ==> e.reason == Reason::BadLength,
            r is Err ==> final(self)@ == old(self)@,
    {
        self.serialize_map_end(state)
    }

    /// Opens a struct variant's field map.
    pub fn serialize_struct_variant(&mut self, len: usize) -> (r: MapGeneric)
        ensures
            final(self)@ == old(self)@,
            r.keys() == Seq::<GenericModel>::empty(),
            r.values() == Seq::<GenericModel>::empty(),
    {
        self.serialize_map(Some(len))
    }

    /// Encodes one named field of a struct variant.
    pub fn serialize_struct_variant_elt<T: Encode>(
        &mut self,
        state: &mut MapGeneric,
        key: &str,
        value: &T,
    ) -> (r: Result<(), Error>)
        ensures
            final(self)@ == old(self)@,
            value.enc_ok() ==> r is Ok,
            r is Ok ==> final(state).keys() == old(state).keys().push(GenericModel::Str(key@))
                && final(state).values() == old(state).values() + value.enc_items(),
    {
        self.serialize_struct_elt(state, key, value)
    }

    /// Closes a struct variant: a single-entry map from the variant name
    /// to the zipped field map; unequal key and value counts are a
    /// length violation.
    pub fn serialize_struct_variant_end(&mut self, variant: &str, state: MapGeneric) -> (r: Result<
        (),
        Error,
    >)
        ensures
            state.keys().len() == state.values().len() ==> r is Ok,
            r is Ok <==> state.keys().len() == state.values().len(),
            r is Ok ==> final(self)@ == old(self)@.push(
                struct_variant_model(variant@, zip_models(state.keys(), state.values())),
            ),
            r matches Err(e) ==> e.reason == Reason::BadLength,
            r is Err ==> final(self)@ == old(self)@,
    {
        let ghost ks = state.keys();
        let ghost vs = state.values();
        let mut inner = VecGeneric::new();
        let res = inner.serialize_map_end(state);
        if let Err(e) = res {
            return Err(e);
        }
        let fields = match inner.pop() {
            Some(g) => g,
            None => {
                proof {
                    assert(false);
                }
                Generic::Nil
            },
        };
        let mut entries: Vec<(Generic, Generic)> = Vec::new();
        entries.push((Generic::Str(variant.to_owned()), fields));
        proof {
            assert(pair_models_of(entries@) =~= seq![
                (GenericModel::Str(variant@), GenericModel::Mapping(zip_models(ks, vs))),
            ]);
        }
        self.push_generic(Generic::Mapping(entries));
        Ok(())
    }
}

/// Round-trip law for dynamic values: a `Generic` always encodes, into
/// exactly one item, and that item is its own model. With the contracts
/// of [`Generic::from_value`] and [`Generic::deserialize`], decoding the
/// result of encoding any dynamic value yields one with the same model.
pub proof fn lemma_generic_round_trip(v: Generic)
    ensures
        v.enc_ok(),
        v.enc_items().len() == 1,
        v.enc_items()[0] == v@,
{
}

impl Generic {
    /// Serializes a typed value into a fresh builder and requires that
    /// exactly one top-level item came out: zero items or more than one
    /// is a length violation, whatever the value did internally.
    pub fn from_value<V: Encode>(value: &V) -> (r: Result<Generic, Error>)
        ensures
            value.enc_ok() && value.enc_items().len() == 1 ==> (r matches Ok(g) && g@
                == value.enc_items()[0]),
            value.enc_ok() && value.enc_items().len() != 1 ==> (r matches Err(e) && e.reason
                == Reason::BadLength),
            r matches Ok(g) ==> value.enc_items().len() == 1 && g@ == value.enc_items()[0],
    {
        let mut buf = VecGeneric::new();

        let res = value.encode(&mut buf);
        if let Err(e) = res {
            return Err(e);
        }

        if let Some(generic) = buf.pop() {
            if !buf.is_empty() {
                // the value serialized into more than one item
                Err(Error::simple(Reason::BadLength))
            } else {
                Ok(generic)
            }
        } else {
            // the value serialized into no items
            Err(Error::simple(Reason::BadLength))
        }
    }
}

impl Encode for Generic {
    /// A dynamic value stands for exactly itself.
    open spec fn enc_items(&self) -> Seq<GenericModel> {
        seq![self@]
    }

    open spec fn enc_ok(&self) -> bool {
        true
    }

    /// Re-encodes this value into the builder variant by variant; the
    /// one item pushed models the same tree.
    #[verifier::loop_isolation(false)]
    fn encode(&self, out: &mut VecGeneric) -> (r: Result<(), Error>)
        ensures
            r is Ok,
        decreases *self,
    {
        match self {
            Generic::Nil => {
                out.serialize_unit();
            },
            Generic::False => {
                out.serialize_bool(false);
            },
            Generic::True => {
                out.serialize_bool(true);
            },
            Generic::Int(i) => {
                out.serialize_i64(*i);
            },
            Generic::UInt(u) => {
                out.serialize_u64(*u);
            },
            Generic::F32(b) => {
                out.serialize_f32(*b);
            },
            Generic::F64(b) => {
                out.serialize_f64(*b);
            },
            Generic::Bin(b) => {
                out.serialize_bytes(b.as_slice());
            },
            Generic::Str(s) => {
                out.serialize_str(s.as_str());
            },
            Generic::Array(a) => {
                let n = a.len();
                let mut state = out.serialize_seq(Some(n));
                let mut i: usize = 0;
                while i < n
                    invariant
                        i <= n,
                        state@.len() == i,
                        forall|j: int| 0 <= j < i ==> state@[j] == a@[j]@,
                    decreases n - i,
                {
                    proof {
                        assert(decreases_to!(*self => (*self)->Array_0));
                        assert(decreases_to!(*a => a@[i as int]));
                    }
                    let res = (&a[i]).encode(&mut state);
                    if let Err(e) = res {
                        proof {
                            assert(false);
                        }
                        return Err(e);
                    }
                    i = i + 1;
                }
                proof {
                    assert(state@ =~= models_of(a@));
                }
                out.serialize_seq_end(state);
            },
            Generic::Mapping(m) => {
                let n = m.len();
                let mut state = out.serialize_map(Some(n));
                let mut i: usize = 0;
                while i < n
                    invariant
                        i <= n,
                        state.keys().len() == i,
                        state.values().len() == i,
                        forall|j: int|
                            #![trigger state.keys()[j]]
                            #![trigger state.values()[j]]
                            0 <= j < i ==> state.keys()[j] == m@[j].0@ && state.values()[j]
                                == m@[j].1@,
                    decreases n - i,
                {
                    proof {
                        assert(decreases_to!(*self => (*self)->Mapping_0));
                        assert(decreases_to!(*m => m@[i as int]));
                        assert(decreases_to!(m@[i as int] => m@[i as int].0));
                        assert(decreases_to!(m@[i as int] => m@[i as int].1));
                        assert(decreases_to!(*self => m@[i as int].0));
                        assert(decreases_to!(*self => m@[i as int].1));
                    }
                    let res = (&m[i].0).encode(&mut state.keys);
                    if let Err(e) = res {
                        proof {
                            assert(false);
                        }
                        return Err(e);
                    }
                    let res = (&m[i].1).encode(&mut state.values);
                    if let Err(e) = res {
                        proof {
                            assert(false);
                        }
                        return Err(e);
                    }
                    i = i + 1;
                }
                let ghost ks = state.keys();
                let ghost vs = state.values();
                let res = out.serialize_map_end(state);
                if let Err(e) = res {
                    proof {
                        assert(false);
                    }
                    return Err(e);
                }
                proof {
                    assert(zip_models(ks, vs) =~= pair_models_of(m@));
                }
            },
        }
        proof {
            assert(out@ =~= old(out)@ + seq![self@]);
        }
        Ok(())
    }
}

impl Encode for bool {
    /// One boolean item.
    open spec fn enc_items(&self) -> Seq<GenericModel> {
        seq![
            if *self {
                GenericModel::True
            } else {
                GenericModel::False
            },
        ]
    }

    open spec fn enc_ok(&self) -> bool {
        true
    }

    fn encode(&self, out: &mut VecGeneric) -> (r: Result<(), Error>)
        ensures
            r is Ok,
    {
        out.serialize_bool(*self);
        proof {
            assert(out@ =~= old(out)@ + self.enc_items());
        }
        Ok(())
    }
}

impl Encode for i8 {
    /// One signed or unsigned integer item, widened to 64 bits.
    open spec fn enc_items(&self) -> Seq<GenericModel> {
        seq![GenericModel::Int(*self as i64)]
    }

    open spec fn enc_ok(&self) -> bool {
        true
    }

    fn encode(&self, out: &mut VecGeneric) -> (r: Result<(), Error>)
        ensures
            r is Ok,
    {
        out.serialize_i64(*self as i64);
        proof {
            assert(out@ =~= old(out)@ + self.enc_items());
        }
        Ok(())
    }
}

impl Encode for i16 {
    /// One signed or unsigned integer item, widened to 64 bits.
    open spec fn enc_items(&self) -> Seq<GenericModel> {
        seq![GenericModel::Int(*self as i64)]
    }

    open spec fn enc_ok(&self) -> bool {
        true
    }

    fn encode(&self, out: &mut VecGeneric) -> (r: Result<(), Error>)
        ensures
            r is Ok,
    {
        out.serialize_i64(*self as i64);
        proof {
            assert(out@ =~= old(out)@ + self.enc_items());
        }
        Ok(())
    }
}

impl Encode for i32 {
    /// One signed or unsigned integer item, widened to 64 bits.
    open spec fn enc_items(&self) -> Seq<GenericModel> {
        seq![GenericModel::Int(*self as i64)]
    }

    open spec fn enc_ok(&self) -> bool {
        true
    }

    fn encode(&self, out: &mut VecGeneric) -> (r: Result<(), Error>)
        ensures
            r is Ok,
    {
        out.serialize_i64(*self as i64);
        proof {
            assert(out@ =~= old(out)@ + self.enc_items());
        }
        Ok(())
    }
}

impl Encode for i64 {
    /// One signed or unsigned integer item, widened to 64 bits.
    open spec fn enc_items(&self) -> Seq<GenericModel> {
        seq![GenericModel::Int(*self as i64)]
    }

    open spec fn enc_ok(&self) -> bool {
        true
    }

    fn encode(&self, out: &mut VecGeneric) -> (r: Result<(), Error>)
        ensures
            r is Ok,
    {
        out.serialize_i64(*self as i64);
        proof {
            assert(out@ =~= old(out)@ + self.enc_items());
        }
        Ok(())
    }
}

impl Encode for isize {
    /// One signed or unsigned integer item, widened to 64 bits.
    open spec fn enc_items(&self) -> Seq<GenericModel> {
        seq![GenericModel::Int(*self as i64)]
    }

    open spec fn enc_ok(&self) -> bool {
        true
    }

    fn encode(&self, out: &mut VecGeneric) -> (r: Result<(), Error>)
        ensures
            r is Ok,
    {
        out.serialize_i64(*self as i64);
        proof {
            assert(out@ =~= old(out)@ + self.enc_items());
        }
        Ok(())
    }
}

impl Encode for u8 {
    /// One signed or unsigned integer item, widened to 64 bits.
    open spec fn enc_items(&self) -> Seq<GenericModel> {
        seq![GenericModel::UInt(*self as u64)]
    }

    open spec fn enc_ok(&self) -> bool {
        true
    }

    fn encode(&self, out: &mut VecGeneric) -> (r: Result<(), Error>)
        ensures
            r is Ok,
    {
        out.serialize_u64(*self as u64);
        proof {
            assert(out@ =~= old(out)@ + self.enc_items());
        }
        Ok(())
    }
}

impl Encode for u16 {
    /// One signed or unsigned integer item, widened to 64 bits.
    open spec fn enc_items(&self) -> Seq<GenericModel> {
        seq![GenericModel::UInt(*self as u64)]
    }

    open spec fn enc_ok(&self) -> bool {
        true
    }

    fn encode(&self, out: &mut VecGeneric) -> (r: Result<(), Error>)
        ensures
            r is Ok,
    {
        out.serialize_u64(*self as u64);
        proof {
            assert(out@ =~= old(out)@ + self.enc_items());
        }
        Ok(())
    }
}

impl Encode for u32 {
    /// One signed or unsigned integer item, widened to 64 bits.
    open spec fn enc_items(&self) -> Seq<GenericModel> {
        seq![GenericModel::UInt(*self as u64)]
    }

    open spec fn enc_ok(&self) -> bool {
        true
    }

    fn encode(&self, out: &mut VecGeneric) -> (r: Result<(), Error>)
        ensures
            r is Ok,
    {
        out.serialize_u64(*self as u64);
        proof {
            assert(out@ =~= old(out)@ + self.enc_items());
        }
        Ok(())
    }
}

impl Encode for u64 {
    /// One signed or unsigned integer item, widened to 64 bits.
    open spec fn enc_items(&self) -> Seq<GenericModel> {
        seq![GenericModel::UInt(*self as u64)]
    }

    open spec fn enc_ok(&self) -> bool {
        true
    }

    fn encode(&self, out: &mut VecGeneric) -> (r: Result<(), Error>)
        ensures
            r is Ok,
    {
        out.serialize_u64(*self as u64);
        proof {
            assert(out@ =~= old(out)@ + self.enc_items());
        }
        Ok(())
    }
}

impl Encode for usize {
    /// One signed or unsigned integer item, widened to 64 bits.
    open spec fn enc_items(&self) -> Seq<GenericModel> {
        seq![GenericModel::UInt(*self as u64)]
    }

    open spec fn enc_ok(&self) -> bool {
        true
    }

    fn encode(&self, out: &mut VecGeneric) -> (r: Result<(), Error>)
        ensures
            r is Ok,
    {
        out.serialize_u64(*self as u64);
        proof {
            assert(out@ =~= old(out)@ + self.enc_items());
        }
        Ok(())
    }
}

impl Encode for String {
    /// One text item.
    open spec fn enc_items(&self) -> Seq<GenericModel> {
        seq![GenericModel::Str(self@)]
    }

    open spec fn enc_ok(&self) -> bool {
        true
    }

    fn encode(&self, out: &mut VecGeneric) -> (r: Result<(), Error>)
        ensures
            r is Ok,
    {
        out.serialize_str(self.as_str());
        proof {
            assert(out@ =~= old(out)@ + self.enc_items());
        }
        Ok(())
    }
}

} // verus!
