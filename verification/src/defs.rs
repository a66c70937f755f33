use vstd::prelude::*;

verus! {

/// Largest entry count a one-byte fixmap header can carry.
pub const MAX_FIXMAP: usize = 15;

/// Largest entry count a map16 header can carry.
pub const MAX_MAP16: usize = 65535;

/// Largest entry count a map32 header can carry; beyond it encoding fails.
pub const MAX_MAP32: u64 = 4294967295;

/// High-nibble tag of a fixmap header; the low nibble holds the count.
pub const FIXMAP_MASK: u8 = 0x80;

/// Tag byte of a map16 header (followed by a big-endian u16 count).
pub const MAP16: u8 = 0xde;

/// Tag byte of a map32 header (followed by a big-endian u32 count).
pub const MAP32: u8 = 0xdf;

/// Tag byte of a nil value.
pub const NIL: u8 = 0xc0;

/// Tag byte of boolean false.
pub const BOOL_FALSE: u8 = 0xc2;

/// Tag byte of boolean true.
pub const BOOL_TRUE: u8 = 0xc3;

/// Tag byte of a byte sequence (followed by a big-endian u32 byte length).
pub const BIN32: u8 = 0xc6;

/// Tag byte of a 32-bit float bit pattern (followed by 4 bytes big-endian).
pub const FLOAT32: u8 = 0xca;

/// Tag byte of a 64-bit float bit pattern (followed by 8 bytes big-endian).
pub const FLOAT64: u8 = 0xcb;

/// Tag byte of an unsigned integer (followed by 8 bytes big-endian).
pub const UINT64: u8 = 0xcf;

/// Tag byte of a signed integer (followed by 8 bytes big-endian,
/// two's complement).
pub const INT64: u8 = 0xd3;

/// Tag byte of a text value (followed by a big-endian u32 byte length).
pub const STR32: u8 = 0xdb;

/// Tag byte of an array (followed by a big-endian u32 element count).
pub const ARRAY32: u8 = 0xdd;

/// The two bytes of `x` in big-endian order.
pub open spec fn be16_bytes(x: u16) -> Seq<u8> {
    seq![(x / 256) as u8, (x % 256) as u8]
}

/// The four bytes of `x` in big-endian order.
pub open spec fn be32_bytes(x: u32) -> Seq<u8> {
    seq![
        (x / 0x1000000) as u8,
        ((x / 0x10000) % 256) as u8,
        ((x / 256) % 256) as u8,
        (x % 256) as u8,
    ]
}

/// The eight bytes of `x` in big-endian order.
pub open spec fn be64_bytes(x: u64) -> Seq<u8> {
    seq![
        (x / 0x100000000000000) as u8,
        ((x / 0x1000000000000) % 256) as u8,
        ((x / 0x10000000000) % 256) as u8,
        ((x / 0x100000000) % 256) as u8,
        ((x / 0x1000000) % 256) as u8,
        ((x / 0x10000) % 256) as u8,
        ((x / 256) % 256) as u8,
        (x % 256) as u8,
    ]
}

/// Appends the two bytes of `x` in big-endian order.
pub fn write_be16(out: &mut Vec<u8>, x: u16)
    ensures
        final(out)@ == old(out)@ + be16_bytes(x),
{
    out.push((x / 256) as u8);
    out.push((x % 256) as u8);
    proof {
        assert(out@ =~= old(out)@ + be16_bytes(x));
    }
}

/// Appends the four bytes of `x` in big-endian order.
pub fn write_be32(out: &mut Vec<u8>, x: u32)
    ensures
        final(out)@ == old(out)@ + be32_bytes(x),
{
    out.push((x / 0x1000000) as u8);
    out.push(((x / 0x10000) % 256) as u8);
    out.push(((x / 256) % 256) as u8);
    out.push((x % 256) as u8);
    proof {
        assert(out@ =~= old(out)@ + be32_bytes(x));
    }
}

/// Appends the eight bytes of `x` in big-endian order.
pub fn write_be64(out: &mut Vec<u8>, x: u64)
    ensures
        final(out)@ == old(out)@ + be64_bytes(x),
{
    out.push((x / 0x100000000000000) as u8);
    out.push(((x / 0x1000000000000) % 256) as u8);
    out.push(((x / 0x10000000000) % 256) as u8);
    out.push(((x / 0x100000000) % 256) as u8);
    out.push(((x / 0x1000000) % 256) as u8);
    out.push(((x / 0x10000) % 256) as u8);
    out.push(((x / 256) % 256) as u8);
    out.push((x % 256) as u8);
    proof {
        assert(out@ =~= old(out)@ + be64_bytes(x));
    }
}

} // verus!
