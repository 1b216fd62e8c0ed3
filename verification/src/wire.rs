//! Fixed-width big-endian integers, the building block of every byte layout
//! in this crate.

use vstd::prelude::*;

verus! {

/// The four bytes of `value`, most significant first.
pub open spec fn be32(value: int) -> Seq<u8> {
    seq![
        ((value / 0x100_0000) % 256) as u8,
        ((value / 0x1_0000) % 256) as u8,
        ((value / 0x100) % 256) as u8,
        (value % 256) as u8,
    ]
}

/// The number that four bytes spell, most significant first.
pub open spec fn from_be32(bytes: Seq<u8>) -> int {
    bytes[0] * 0x100_0000 + bytes[1] * 0x1_0000 + bytes[2] * 0x100 + bytes[3]
}

/// The eight bytes of `value`, most significant first.
pub open spec fn be64(value: int) -> Seq<u8> {
    be32(value / 0x1_0000_0000) + be32(value % 0x1_0000_0000)
}

/// The number that eight bytes spell, most significant first.
pub open spec fn from_be64(bytes: Seq<u8>) -> int {
    from_be32(bytes.subrange(0, 4)) * 0x1_0000_0000 + from_be32(bytes.subrange(4, 8))
}

/// Reading back four written bytes gives the number that was written.
pub proof fn lemma_be32_round_trip(value: int)
    requires
        0 <= value < 0x1_0000_0000,
    ensures
        be32(value).len() == 4,
        from_be32(be32(value)) == value,
{
}

/// Reading back eight written bytes gives the number that was written.
pub proof fn lemma_be64_round_trip(value: int)
    requires
        0 <= value < 0x1_0000_0000_0000_0000,
    ensures
        be64(value).len() == 8,
        from_be64(be64(value)) == value,
{
    let hi = value / 0x1_0000_0000;
    let lo = value % 0x1_0000_0000;
    lemma_be32_round_trip(hi);
    lemma_be32_round_trip(lo);
    assert(be64(value).subrange(0, 4) =~= be32(hi));
    assert(be64(value).subrange(4, 8) =~= be32(lo));
}

/// Four bytes always spell a number below 2^32, and writing that number
/// gives the same four bytes.
pub proof fn lemma_from_be32_bounds(bytes: Seq<u8>)
    requires
        bytes.len() == 4,
    ensures
        0 <= from_be32(bytes) < 0x1_0000_0000,
        be32(from_be32(bytes)) == bytes,
{
    let value = from_be32(bytes);
    let top2 = bytes[0] * 0x100 + bytes[1];
    let top3 = top2 * 0x100 + bytes[2];
    assert(value == top3 * 0x100 + bytes[3]);
    assert(value % 256 == bytes[3] as int);
    assert(value / 0x100 == top3);
    assert(top3 % 256 == bytes[2] as int);
    assert(value == top2 * 0x1_0000 + (bytes[2] * 0x100 + bytes[3]));
    assert(value / 0x1_0000 == top2);
    assert(top2 % 256 == bytes[1] as int);
    assert(value == bytes[0] * 0x100_0000 + (bytes[1] * 0x1_0000 + bytes[2] * 0x100 + bytes[3]));
    assert(value / 0x100_0000 == bytes[0] as int);
    assert(be32(value) =~= bytes);
}

/// Eight bytes always spell a number below 2^64, and writing that number
/// gives the same eight bytes.
pub proof fn lemma_from_be64_bounds(bytes: Seq<u8>)
    requires
        bytes.len() == 8,
    ensures
        0 <= from_be64(bytes) < 0x1_0000_0000_0000_0000,
        be64(from_be64(bytes)) == bytes,
{
    let hi = bytes.subrange(0, 4);
    let lo = bytes.subrange(4, 8);
    lemma_from_be32_bounds(hi);
    lemma_from_be32_bounds(lo);
    let value = from_be64(bytes);
    assert(value / 0x1_0000_0000 == from_be32(hi));
    assert(value % 0x1_0000_0000 == from_be32(lo));
    assert(be64(value) =~= hi + lo);
    assert(hi + lo =~= bytes);
}

/// Appends the four big-endian bytes of `value`.
pub(crate) fn put_u32(out: &mut Vec<u8>, value: u32)
    ensures
        final(out)@ == old(out)@ + be32(value as int),
{
    out.push((value / 0x100_0000) as u8);
    out.push(((value / 0x1_0000) % 256) as u8);
    out.push(((value / 0x100) % 256) as u8);
    out.push((value % 256) as u8);
    assert(out@ =~= old(out)@ + be32(value as int));
}

/// Appends the eight big-endian bytes of `value`.
pub(crate) fn put_u64(out: &mut Vec<u8>, value: u64)
    ensures
        final(out)@ == old(out)@ + be64(value as int),
{
    let hi: u32 = (value / 0x1_0000_0000) as u32;
    let lo: u32 = (value % 0x1_0000_0000) as u32;
    put_u32(out, hi);
    put_u32(out, lo);
    assert(out@ =~= old(out)@ + be64(value as int));
}

/// Appends a run of bytes.
pub(crate) fn put_bytes(out: &mut Vec<u8>, bytes: &[u8])
    ensures
        final(out)@ == old(out)@ + bytes@,
{
    let mut i: usize = 0;
    while i < bytes.len()
        invariant
            i <= bytes.len(),
            out@ == old(out)@ + bytes@.subrange(0, i as int),
        decreases bytes.len() - i,
    {
        out.push(bytes[i]);
        assert(bytes@.subrange(0, i + 1) =~= bytes@.subrange(0, i as int).push(bytes@[i as int]));
        i += 1;
    }
    assert(bytes@.subrange(0, i as int) =~= bytes@);
}

/// Reads the four bytes that start at `at`.
pub(crate) fn get_u32(bytes: &[u8], at: usize) -> (value: u32)
    requires
        at + 4 <= bytes.len(),
    ensures
        value == from_be32(bytes@.subrange(at as int, at + 4)),
{
    let b0: u32 = bytes[at] as u32;
    let b1: u32 = bytes[at + 1] as u32;
    let b2: u32 = bytes[at + 2] as u32;
    let b3: u32 = bytes[at + 3] as u32;
    b0 * 0x100_0000 + b1 * 0x1_0000 + b2 * 0x100 + b3
}

/// Reads the eight bytes that start at `at`.
pub(crate) fn get_u64(bytes: &[u8], at: usize) -> (value: u64)
    requires
        at + 8 <= bytes.len(),
    ensures
        value == from_be64(bytes@.subrange(at as int, at + 8)),
{
    let hi: u64 = get_u32(bytes, at) as u64;
    let lo: u64 = get_u32(bytes, at + 4) as u64;
    proof {
        let window = bytes@.subrange(at as int, at + 8);
        assert(window.subrange(0, 4) =~= bytes@.subrange(at as int, at + 4));
        assert(window.subrange(4, 8) =~= bytes@.subrange(at + 4, at + 8));
    }
    hi * 0x1_0000_0000 + lo
}

} // verus!
