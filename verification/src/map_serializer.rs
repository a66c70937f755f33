use vstd::prelude::*;

use crate::defs::{
    be16_bytes, be32_bytes, write_be16, write_be32, FIXMAP_MASK, MAP16, MAP32, MAX_FIXMAP,
    MAX_MAP16, MAX_MAP32,
};
use crate::error::{Error, Reason};
use crate::generic::{encodable, wire_bytes, Generic, GenericModel};

verus! {

/// The minimal length-prefixed map header for `n` entries.
///
/// Meaningful for `0 <= n <= MAX_MAP32`; each of the three size classes
/// uses its own tag and big-endian count width.
pub open spec fn header_bytes(n: int) -> Seq<u8> {
    if n <= MAX_FIXMAP {
        seq![(FIXMAP_MASK + n) as u8]
    } else if n <= MAX_MAP16 {
        seq![MAP16] + be16_bytes(n as u16)
    } else {
        seq![MAP32] + be32_bytes(n as u32)
    }
}

/// Which of the two framing strategies a [`MapSerializer`] is following.
///
/// In `Streaming` the entry count was declared up front, the header is
/// already out, and elements go straight to the caller's sink. In
/// `Buffering` the count is still unknown: elements accumulate in
/// `buffered` and nothing reaches the sink before `finish`.
#[verifier::ext_equal]
pub enum FramerMode {
    Streaming { size: usize },
    Buffering { buffered: Seq<u8> },
}

/// Encodes a map-shaped collection (map, record, or the field map of a
/// struct-shaped variant) whose length header must precede its entries
/// even though the entry count may not be known until the end.
///
/// Exactly one terminal [`finish`](MapSerializer::finish) consumes the
/// framer. Each key and each value counts as one element, so a complete
/// map holds an even number of elements.
pub struct MapSerializer {
    count: u64,
    size: Option<usize>,
    buffer: Vec<u8>,
}

impl MapSerializer {
    /// How many elements (keys plus values) have been serialized so far.
    pub closed spec fn item_count(&self) -> nat {
        self.count as nat
    }

    /// The framing strategy this framer is following, with its state.
    pub closed spec fn mode(&self) -> FramerMode {
        match self.size {
            Some(s) => FramerMode::Streaming { size: s },
            None => FramerMode::Buffering { buffered: self.buffer@ },
        }
    }

    /// A fresh framer: no elements yet, buffering until a size hint arrives.
    pub fn new() -> (r: MapSerializer)
        ensures
            r.item_count() == 0,
            r.mode() == (FramerMode::Buffering { buffered: Seq::<u8>::empty() }),
    {
        let r = MapSerializer { count: 0u64, size: None, buffer: Vec::new() };
        proof {
            assert(r.mode() == (FramerMode::Buffering { buffered: Seq::<u8>::empty() }));
        }
        r
    }

    /// Declares the entry count before any element is written.
    ///
    /// With `Some(size)` the header goes out immediately and the framer
    /// switches to streaming; every later element is written directly.
    /// With `None` the framer keeps buffering. A count beyond the largest
    /// header's capacity fails with `TooBig` and writes nothing.
    pub fn hint_size(&mut self, size: Option<usize>, out: &mut Vec<u8>) -> (r: Result<(), Error>)
        requires
            old(self).item_count() == 0,
            old(self).mode() == (FramerMode::Buffering { buffered: Seq::<u8>::empty() }),
        ensures
            final(self).item_count() == 0,
            match size {
                Some(s) => {
                    if s as u64 <= MAX_MAP32 {
                        &&& r is Ok
                        &&& final(out)@ == old(out)@ + header_bytes(s as int)
                        &&& final(self).mode() == (FramerMode::Streaming { size: s })
                    } else {
                        &&& r matches Err(e) && e.reason == Reason::TooBig
                        &&& final(out)@ == old(out)@
                        &&& final(self).mode() == old(self).mode()
                    }
                },
                None => {
                    &&& r is Ok
                    &&& final(out)@ == old(out)@
                    &&& final(self).mode() == old(self).mode()
                },
            },
    {
        if let Some(size) = size {
            // the count is known up front, so the header can go out now
            let r = Self::output_map_header(size as u64, out);
            if r.is_ok() {
                self.size = Some(size);
            }
            r
        } else {
            self.size = None;
            Ok(())
        }
    }

    /// Writes the minimal map header for `size` entries, or fails with
    /// `TooBig` (writing nothing) when `size` exceeds the map32 ceiling.
    fn output_map_header(size: u64, out: &mut Vec<u8>) -> (r: Result<(), Error>)
        ensures
            if size <= MAX_MAP32 {
                &&& r is Ok
                &&& final(out)@ == old(out)@ + header_bytes(size as int)
            } else {
                &&& r matches Err(e) && e.reason == Reason::TooBig
                &&& final(out)@ == old(out)@
            },
    {
        if size <= MAX_FIXMAP as u64 {
            out.push(FIXMAP_MASK + size as u8);
            proof {
                assert(out@ =~= old(out)@ + header_bytes(size as int));
            }
            Ok(())
        } else if size <= MAX_MAP16 as u64 {
            out.push(MAP16);
            write_be16(out, size as u16);
            proof {
                assert(out@ =~= old(out)@ + header_bytes(size as int));
            }
            Ok(())
        } else if size <= MAX_MAP32 {
            out.push(MAP32);
            write_be32(out, size as u32);
            proof {
                assert(out@ =~= old(out)@ + header_bytes(size as int));
            }
            Ok(())
        } else {
            Err(Error::simple(Reason::TooBig))
        }
    }

    /// Serializes one element (a key or a value) of the collection.
    ///
    /// In streaming mode the element's bytes go straight to `out`; in
    /// buffering mode they are appended to the internal buffer and `out`
    /// is left untouched. Either way the element count rises by one.
    pub fn serialize_element(&mut self, value: &Generic, out: &mut Vec<u8>) -> (r: Result<(),
        Error>)
        ensures
            r is Ok <==> old(self).item_count() < u64::MAX && encodable(value@),
            r is Ok ==> final(self).item_count() == old(self).item_count() + 1,
            r matches Err(e) ==> e.reason == Reason::TooBig,
            old(self).mode() is Streaming ==> {
                &&& final(self).mode() == old(self).mode()
                &&& (r is Ok ==> final(out)@ == old(out)@ + wire_bytes(value@))
                &&& old(out)@.is_prefix_of(final(out)@)
            },
            old(self).mode() is Buffering ==> {
                &&& final(out)@ == old(out)@
                &&& final(self).mode() is Buffering
                &&& (r is Ok ==> final(self).mode() == (FramerMode::Buffering {
                    buffered: old(self).mode()->Buffering_buffered + wire_bytes(value@),
                }))
            },
        decreases *value, 2int,
    {
        if self.count == u64::MAX {
            return Err(Error::simple(Reason::TooBig));
        }
        self.count = self.count + 1;

        if self.should_serialize_directly() {
            Self::serialize_directly(value, out)
        } else {
            self.serialize_into_buffer(value)
        }
    }

    /// True when a size hint was given, so elements stream directly out.
    fn should_serialize_directly(&self) -> (r: bool)
        ensures
            r == (self.mode() is Streaming),
    {
        self.size.is_some()
    }

    /// Encodes `value` into the internal buffer (unknown-size mode).
    fn serialize_into_buffer(&mut self, value: &Generic) -> (r: Result<(), Error>)
        requires
            old(self).mode() is Buffering,
        ensures
            r is Ok <==> encodable(value@),
            r matches Err(e) ==> e.reason == Reason::TooBig,
            final(self).item_count() == old(self).item_count(),
            final(self).mode() is Buffering,
            r is Ok ==> final(self).mode() == (FramerMode::Buffering {
                buffered: old(self).mode()->Buffering_buffered + wire_bytes(value@),
            }),
        decreases *value, 1int,
    {
        value.serialize(&mut self.buffer)
    }

    /// Encodes `value` straight to `out` (known-size mode).
    fn serialize_directly(value: &Generic, out: &mut Vec<u8>) -> (r: Result<(), Error>)
        ensures
            r is Ok <==> encodable(value@),
            r matches Err(e) ==> e.reason == Reason::TooBig,
            r is Ok ==> final(out)@ == old(out)@ + wire_bytes(value@),
            old(out)@.is_prefix_of(final(out)@),
        decreases *value, 1int,
    {
        value.serialize(out)
    }

    /// The entry count of a buffered collection: half the element count.
    ///
    /// An odd element count means a key without its value and fails with
    /// `BadLength`.
    fn get_item_count(&self) -> (r: Result<u64, Error>)
        ensures
            self.item_count() % 2 == 0 ==> (r matches Ok(n) && n == self.item_count() / 2),
            self.item_count() % 2 != 0 ==> (r matches Err(e) && e.reason == Reason::BadLength),
    {
        if self.count % 2 != 0 {
            Err(Error::simple(Reason::BadLength))
        } else {
            Ok(self.count / 2)
        }
    }

    /// Checks that exactly `2 * size` elements were serialized.
    fn check_item_count_matches_size(&self, size: usize) -> (r: Result<(), Error>)
        ensures
            r is Ok <==> self.item_count() == 2 * (size as int),
            r matches Err(e) ==> e.reason == Reason::BadLength,
    {
        if self.count % 2 == 0 && self.count / 2 == size as u64 {
            Ok(())
        } else {
            Err(Error::simple(Reason::BadLength))
        }
    }

    /// The single terminal operation: completes the collection.
    ///
    /// In streaming mode it only checks that the element count matches the
    /// declared size (`BadLength` otherwise); the header and elements are
    /// already out. In buffering mode it derives the entry count from the
    /// element count (`BadLength` on an unpaired key), writes the header,
    /// and flushes the buffered elements; nothing reaches `out` on failure.
    pub fn finish(self, out: &mut Vec<u8>) -> (r: Result<(), Error>)
        ensures
            match self.mode() {
                FramerMode::Streaming { size } => {
                    &&& final(out)@ == old(out)@
                    &&& (r is Ok <==> self.item_count() == 2 * (size as int))
                    &&& (r matches Err(e) ==> e.reason == Reason::BadLength)
                },
                FramerMode::Buffering { buffered } => {
                    if self.item_count() % 2 != 0 {
                        &&& r matches Err(e) && e.reason == Reason::BadLength
                        &&& final(out)@ == old(out)@
                    } else if self.item_count() / 2 > MAX_MAP32 as nat {
                        &&& r matches Err(e) && e.reason == Reason::TooBig
                        &&& final(out)@ == old(out)@
                    } else {
                        &&& r is Ok
                        &&& final(out)@ == old(out)@ + header_bytes((self.item_count() / 2) as int)
                            + buffered
                    }
                },
            },
    {
        if let Some(size) = self.size {
            self.check_item_count_matches_size(size)
        } else {
            let count = self.get_item_count()?;
            Self::output_map_header(count, out)?;
            let mut buffer = self.buffer;
            out.append(&mut buffer);
            Ok(())
        }
    }

    /// Serializes a map key (one element).
    pub fn serialize_key(&mut self, key: &Generic, out: &mut Vec<u8>) -> (r: Result<(), Error>)
        ensures
            r is Ok <==> old(self).item_count() < u64::MAX && encodable(key@),
            r is Ok ==> final(self).item_count() == old(self).item_count() + 1,
            r matches Err(e) ==> e.reason == Reason::TooBig,
            old(self).mode() is Streaming ==> {
                &&& final(self).mode() == old(self).mode()
                &&& (r is Ok ==> final(out)@ == old(out)@ + wire_bytes(key@))
                &&& old(out)@.is_prefix_of(final(out)@)
            },
            old(self).mode() is Buffering ==> {
                &&& final(out)@ == old(out)@
                &&& final(self).mode() is Buffering
                &&& (r is Ok ==> final(self).mode() == (FramerMode::Buffering {
                    buffered: old(self).mode()->Buffering_buffered + wire_bytes(key@),
                }))
            },
    {
        self.serialize_element(key, out)
    }

    /// Serializes a map value (one element).
    pub fn serialize_value(&mut self, value: &Generic, out: &mut Vec<u8>) -> (r: Result<(),
        Error>)
        ensures
            r is Ok <==> old(self).item_count() < u64::MAX && encodable(value@),
            r is Ok ==> final(self).item_count() == old(self).item_count() + 1,
            r matches Err(e) ==> e.reason == Reason::TooBig,
            old(self).mode() is Streaming ==> {
                &&& final(self).mode() == old(self).mode()
                &&& (r is Ok ==> final(out)@ == old(out)@ + wire_bytes(value@))
                &&& old(out)@.is_prefix_of(final(out)@)
            },
            old(self).mode() is Buffering ==> {
                &&& final(out)@ == old(out)@
                &&& final(self).mode() is Buffering
                &&& (r is Ok ==> final(self).mode() == (FramerMode::Buffering {
                    buffered: old(self).mode()->Buffering_buffered + wire_bytes(value@),
                }))
            },
    {
        self.serialize_element(value, out)
    }

    /// Serializes one named field: the name as a text key, then the value.
    pub fn serialize_field(&mut self, key: &str, value: &Generic, out: &mut Vec<u8>) -> (r: Result<
        (),
        Error,
    >)
        ensures
            r is Ok <==> old(self).item_count() + 2 <= u64::MAX && encodable(
                GenericModel::Str(key@),
            ) && encodable(value@),
            r is Ok ==> final(self).item_count() == old(self).item_count() + 2,
            r matches Err(e) ==> e.reason == Reason::TooBig,
            old(self).mode() is Streaming ==> {
                &&& final(self).mode() == old(self).mode()
                &&& (r is Ok ==> final(out)@ == old(out)@ + wire_bytes(GenericModel::Str(key@))
                    + wire_bytes(value@))
                &&& old(out)@.is_prefix_of(final(out)@)
            },
            old(self).mode() is Buffering ==> {
                &&& final(out)@ == old(out)@
                &&& final(self).mode() is Buffering
                &&& (r is Ok ==> final(self).mode() == (FramerMode::Buffering {
                    buffered: old(self).mode()->Buffering_buffered + wire_bytes(
                        GenericModel::Str(key@),
                    ) + wire_bytes(value@),
                }))
            },
    {
        let name = Generic::Str(key.to_owned());
        let res = self.serialize_key(&name, out);
        if let Err(e) = res {
            return Err(e);
        }
        self.serialize_value(value, out)
    }

    /// Completes the collection; an alias for [`finish`](MapSerializer::finish).
    pub fn end(self, out: &mut Vec<u8>) -> (r: Result<(), Error>)
        ensures
            match self.mode() {
                FramerMode::Streaming { size } => {
                    &&& final(out)@ == old(out)@
                    &&& (r is Ok <==> self.item_count() == 2 * (size as int))
                    &&& (r matches Err(e) ==> e.reason == Reason::BadLength)
                },
                FramerMode::Buffering { buffered } => {
                    if self.item_count() % 2 != 0 {
                        &&& r matches Err(e) && e.reason == Reason::BadLength
                        &&& final(out)@ == old(out)@
                    } else if self.item_count() / 2 > MAX_MAP32 as nat {
                        &&& r matches Err(e) && e.reason == Reason::TooBig
                        &&& final(out)@ == old(out)@
                    } else {
                        &&& r is Ok
                        &&& final(out)@ == old(out)@ + header_bytes((self.item_count() / 2) as int)
                            + buffered
                    }
                },
            },
    {
        self.finish(out)
    }
}

/// Each size class uses its fixed header width: one byte up to the
/// fixmap bound, three through the map16 bound, five through the map32
/// bound.
pub proof fn lemma_header_size_classes(n: int)
    requires
        0 <= n <= MAX_MAP32,
    ensures
        n <= MAX_FIXMAP ==> header_bytes(n).len() == 1,
        MAX_FIXMAP < n <= MAX_MAP16 ==> header_bytes(n).len() == 3,
        MAX_MAP16 < n ==> header_bytes(n).len() == 5,
{
}

/// The bytes a known-size framing emits: the header for `n` entries up
/// front, then each element's encoding as it arrives.
pub open spec fn known_size_output(n: int, elements: Seq<Seq<u8>>) -> Seq<u8> {
    header_bytes(n) + elements.flatten()
}

/// The bytes an unknown-size framing emits at finish: the header for
/// half the buffered element count, then the buffered encodings flushed
/// verbatim.
pub open spec fn unknown_size_output(elements: Seq<Seq<u8>>) -> Seq<u8> {
    header_bytes(elements.len() as int / 2) + elements.flatten()
}

/// Framing the same elements with a correct size hint and without any
/// hint produces byte-identical output.
pub proof fn lemma_known_unknown_equivalence(n: int, elements: Seq<Seq<u8>>)
    requires
        2 * n == elements.len(),
    ensures
        known_size_output(n, elements) == unknown_size_output(elements),
{
}

} // verus!
