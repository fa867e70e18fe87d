//! Little-endian encoding of the integers that cross the guest boundary.

use byteorder::ByteOrder;
use byteorder::LittleEndian;
use vstd::prelude::*;

verus! {

/// The two bytes of `v`, least significant first.
pub open spec fn le_bytes_u16(v: u16) -> Seq<u8> {
    seq![(v & 0xff) as u8, ((v >> 8) & 0xff) as u8]
}

/// The four bytes of `v`, least significant first.
pub open spec fn le_bytes_u32(v: u32) -> Seq<u8> {
    seq![
        (v & 0xff) as u8,
        ((v >> 8) & 0xff) as u8,
        ((v >> 16) & 0xff) as u8,
        ((v >> 24) & 0xff) as u8,
    ]
}

/// The eight bytes of `v`, least significant first.
pub open spec fn le_bytes_u64(v: u64) -> Seq<u8> {
    seq![
        (v & 0xff) as u8,
        ((v >> 8) & 0xff) as u8,
        ((v >> 16) & 0xff) as u8,
        ((v >> 24) & 0xff) as u8,
        ((v >> 32) & 0xff) as u8,
        ((v >> 40) & 0xff) as u8,
        ((v >> 48) & 0xff) as u8,
        ((v >> 56) & 0xff) as u8,
    ]
}

/// The integer whose little-endian bytes are `s[at]`, `s[at + 1]`.
pub open spec fn le_u16_at(s: Seq<u8>, at: int) -> u16 {
    (s[at] as u16) | ((s[at + 1] as u16) << 8)
}

/// The integer whose little-endian bytes are `s[at]` to `s[at + 3]`.
pub open spec fn le_u32_at(s: Seq<u8>, at: int) -> u32 {
    (s[at] as u32) | ((s[at + 1] as u32) << 8) | ((s[at + 2] as u32) << 16) | ((s[at + 3] as u32)
        << 24)
}

/// The integer whose little-endian bytes are `s[at]` to `s[at + 7]`.
pub open spec fn le_u64_at(s: Seq<u8>, at: int) -> u64 {
    (s[at] as u64) | ((s[at + 1] as u64) << 8) | ((s[at + 2] as u64) << 16) | ((s[at + 3] as u64)
        << 24) | ((s[at + 4] as u64) << 32) | ((s[at + 5] as u64) << 40) | ((s[at + 6] as u64)
        << 48) | ((s[at + 7] as u64) << 56)
}

/// Decoding the bytes of a 16-bit integer gives the integer back.
pub proof fn lemma_le_u16_of_bytes(v: u16)
    ensures
        le_u16_at(le_bytes_u16(v), 0) == v,
{
    assert((((v & 0xff) as u8) as u16) | (((((v >> 8) & 0xff) as u8) as u16) << 8) == v)
        by (bit_vector);
}

/// Decoding the bytes of a 32-bit integer gives the integer back.
pub proof fn lemma_le_u32_of_bytes(v: u32)
    ensures
        le_u32_at(le_bytes_u32(v), 0) == v,
{
    assert((((v & 0xff) as u8) as u32) | (((((v >> 8) & 0xff) as u8) as u32) << 8) | (((((v >> 16)
        & 0xff) as u8) as u32) << 16) | (((((v >> 24) & 0xff) as u8) as u32) << 24) == v)
        by (bit_vector);
}

/// Decoding the bytes of a 64-bit integer gives the integer back.
pub proof fn lemma_le_u64_of_bytes(v: u64)
    ensures
        le_u64_at(le_bytes_u64(v), 0) == v,
{
    assert((((v & 0xff) as u8) as u64) | (((((v >> 8) & 0xff) as u8) as u64) << 8) | (((((v >> 16)
        & 0xff) as u8) as u64) << 16) | (((((v >> 24) & 0xff) as u8) as u64) << 24) | (((((v
        >> 32) & 0xff) as u8) as u64) << 32) | (((((v >> 40) & 0xff) as u8) as u64) << 40) | (((((v
        >> 48) & 0xff) as u8) as u64) << 48) | (((((v >> 56) & 0xff) as u8) as u64) << 56) == v)
        by (bit_vector);
}

/// Encoding the 16-bit integer that two bytes hold gives the bytes back.
pub proof fn lemma_bytes_of_le_u16(s: Seq<u8>, at: int)
    requires
        0 <= at,
        at + 2 <= s.len(),
    ensures
        le_bytes_u16(le_u16_at(s, at)) == s.subrange(at, at + 2),
{
    let (b0, b1) = (s[at], s[at + 1]);
    assert({
        let v = (b0 as u16) | ((b1 as u16) << 8);
        (v & 0xff) as u8 == b0 && ((v >> 8) & 0xff) as u8 == b1
    }) by (bit_vector);
    assert(le_bytes_u16(le_u16_at(s, at)) =~= s.subrange(at, at + 2));
}

/// Encoding the 32-bit integer that four bytes hold gives the bytes back.
pub proof fn lemma_bytes_of_le_u32(s: Seq<u8>, at: int)
    requires
        0 <= at,
        at + 4 <= s.len(),
    ensures
        le_bytes_u32(le_u32_at(s, at)) == s.subrange(at, at + 4),
{
    let (b0, b1, b2, b3) = (s[at], s[at + 1], s[at + 2], s[at + 3]);
    assert({
        let v = (b0 as u32) | ((b1 as u32) << 8) | ((b2 as u32) << 16) | ((b3 as u32) << 24);
        &&& (v & 0xff) as u8 == b0
        &&& ((v >> 8) & 0xff) as u8 == b1
        &&& ((v >> 16) & 0xff) as u8 == b2
        &&& ((v >> 24) & 0xff) as u8 == b3
    }) by (bit_vector);
    assert(le_bytes_u32(le_u32_at(s, at)) =~= s.subrange(at, at + 4));
}

/// Encoding the 64-bit integer that eight bytes hold gives the bytes back.
pub proof fn lemma_bytes_of_le_u64(s: Seq<u8>, at: int)
    requires
        0 <= at,
        at + 8 <= s.len(),
    ensures
        le_bytes_u64(le_u64_at(s, at)) == s.subrange(at, at + 8),
{
    let (b0, b1, b2, b3) = (s[at], s[at + 1], s[at + 2], s[at + 3]);
    let (b4, b5, b6, b7) = (s[at + 4], s[at + 5], s[at + 6], s[at + 7]);
    assert({
        let v = (b0 as u64) | ((b1 as u64) << 8) | ((b2 as u64) << 16) | ((b3 as u64) << 24) | ((
        b4 as u64) << 32) | ((b5 as u64) << 40) | ((b6 as u64) << 48) | ((b7 as u64) << 56);
        &&& (v & 0xff) as u8 == b0
        &&& ((v >> 8) & 0xff) as u8 == b1
        &&& ((v >> 16) & 0xff) as u8 == b2
        &&& ((v >> 24) & 0xff) as u8 == b3
        &&& ((v >> 32) & 0xff) as u8 == b4
        &&& ((v >> 40) & 0xff) as u8 == b5
        &&& ((v >> 48) & 0xff) as u8 == b6
        &&& ((v >> 56) & 0xff) as u8 == b7
    }) by (bit_vector);
    assert(le_bytes_u64(le_u64_at(s, at)) =~= s.subrange(at, at + 8));
}

/// `byteorder::LittleEndian::read_u32`: the first four bytes of `data`
/// read as a little-endian integer. It panics on a shorter slice, which
/// the precondition rules out.
#[verifier::external_body]
pub(crate) fn read_le_u32(data: &[u8]) -> (v: u32)
    requires
        data@.len() >= 4,
    ensures
        v == le_u32_at(data@, 0),
{
    LittleEndian::read_u32(data)
}

/// `byteorder::LittleEndian::write_u32`: the first four bytes of `data`
/// become the little-endian bytes of `v`, the rest stays. It panics on a
/// shorter slice, which the precondition rules out.
#[verifier::external_body]
pub(crate) fn write_le_u32(data: &mut [u8], v: u32)
    requires
        old(data)@.len() >= 4,
    ensures
        final(data)@ == le_bytes_u32(v) + old(data)@.subrange(4, old(data)@.len() as int),
{
    LittleEndian::write_u32(data, v)
}

} // verus!
