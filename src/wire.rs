//! Fixed-width big-endian fields, as values and as bytes.

use vstd::prelude::*;
use byteorder::ByteOrder;

verus! {

/// The 31 bits that a stream identifier keeps.
pub const STREAM_ID_MASK: u32 = 0x7FFF_FFFF;

/// The two bytes of `v`, most significant first.
pub open spec fn u16_be(v: u16) -> Seq<u8> {
    seq![(v >> 8u16) as u8, v as u8]
}

/// The four bytes of `v`, most significant first.
pub open spec fn u32_be(v: u32) -> Seq<u8> {
    seq![(v >> 24u32) as u8, (v >> 16u32) as u8, (v >> 8u32) as u8, v as u8]
}

/// The low three bytes of `v`, most significant first; higher bits are dropped.
pub open spec fn u24_be(v: u32) -> Seq<u8> {
    seq![(v >> 16u32) as u8, (v >> 8u32) as u8, v as u8]
}

/// The eight bytes of `v`, most significant first.
pub open spec fn u64_be(v: u64) -> Seq<u8> {
    seq![
        (v >> 56u64) as u8, (v >> 48u64) as u8, (v >> 40u64) as u8, (v >> 32u64) as u8,
        (v >> 24u64) as u8, (v >> 16u64) as u8, (v >> 8u64) as u8, v as u8,
    ]
}

/// The big-endian number in the first two bytes of `s`.
pub open spec fn be_u16(s: Seq<u8>) -> u16 {
    ((s[0] as u16) << 8u16) | (s[1] as u16)
}

/// The big-endian number in the first three bytes of `s`.
pub open spec fn be_u24(s: Seq<u8>) -> u32 {
    ((s[0] as u32) << 16u32) | ((s[1] as u32) << 8u32) | (s[2] as u32)
}

/// The big-endian number in the first four bytes of `s`.
pub open spec fn be_u32(s: Seq<u8>) -> u32 {
    ((s[0] as u32) << 24u32) | ((s[1] as u32) << 16u32) | ((s[2] as u32) << 8u32) | (s[3] as u32)
}

/// The big-endian number in the first eight bytes of `s`.
pub open spec fn be_u64(s: Seq<u8>) -> u64 {
    ((s[0] as u64) << 56u64) | ((s[1] as u64) << 48u64) | ((s[2] as u64) << 40u64)
        | ((s[3] as u64) << 32u64) | ((s[4] as u64) << 24u64) | ((s[5] as u64) << 16u64)
        | ((s[6] as u64) << 8u64) | (s[7] as u64)
}

/// `s` with `bytes` written over it from position `at`.
pub open spec fn overwrite(s: Seq<u8>, at: int, bytes: Seq<u8>) -> Seq<u8> {
    s.take(at) + bytes + s.skip(at + bytes.len())
}

/// Reading back the bytes of a `u16` gives the number, whatever follows them.
pub proof fn lemma_u16_round_trip(v: u16, rest: Seq<u8>)
    ensures
        be_u16(u16_be(v) + rest) == v,
{
    let s = u16_be(v) + rest;
    let (b0, b1) = (s[0], s[1]);
    assert(b0 == (v >> 8u16) as u8 && b1 == v as u8);
    assert(b0 == (v >> 8u16) as u8 && b1 == v as u8 ==> ((b0 as u16) << 8u16) | (b1 as u16) == v)
        by (bit_vector);
}

/// Reading back the three bytes of a number below 2^24 gives the number.
pub proof fn lemma_u24_round_trip(v: u32, rest: Seq<u8>)
    requires
        v < 0x100_0000,
    ensures
        be_u24(u24_be(v) + rest) == v,
{
    let s = u24_be(v) + rest;
    let (b0, b1, b2) = (s[0], s[1], s[2]);
    assert(b0 == (v >> 16u32) as u8 && b1 == (v >> 8u32) as u8 && b2 == v as u8);
    assert(v < 0x100_0000 && b0 == (v >> 16u32) as u8 && b1 == (v >> 8u32) as u8 && b2 == v as u8
        ==> ((b0 as u32) << 16u32) | ((b1 as u32) << 8u32) | (b2 as u32) == v) by (bit_vector);
}

/// Reading back the bytes of a `u32` gives the number, whatever follows them.
pub proof fn lemma_u32_round_trip(v: u32, rest: Seq<u8>)
    ensures
        be_u32(u32_be(v) + rest) == v,
{
    let s = u32_be(v) + rest;
    let (b0, b1, b2, b3) = (s[0], s[1], s[2], s[3]);
    assert(b0 == (v >> 24u32) as u8 && b1 == (v >> 16u32) as u8 && b2 == (v >> 8u32) as u8
        && b3 == v as u8);
    assert(b0 == (v >> 24u32) as u8 && b1 == (v >> 16u32) as u8 && b2 == (v >> 8u32) as u8
        && b3 == v as u8 ==> ((b0 as u32) << 24u32) | ((b1 as u32) << 16u32) | ((b2 as u32)
        << 8u32) | (b3 as u32) == v) by (bit_vector);
}

/// Reading back the bytes of a `u64` gives the number, whatever follows them.
pub proof fn lemma_u64_round_trip(v: u64, rest: Seq<u8>)
    ensures
        be_u64(u64_be(v) + rest) == v,
{
    let s = u64_be(v) + rest;
    let (b0, b1, b2, b3, b4, b5, b6, b7) = (s[0], s[1], s[2], s[3], s[4], s[5], s[6], s[7]);
    assert(b0 == (v >> 56u64) as u8 && b1 == (v >> 48u64) as u8 && b2 == (v >> 40u64) as u8
        && b3 == (v >> 32u64) as u8 && b4 == (v >> 24u64) as u8 && b5 == (v >> 16u64) as u8
        && b6 == (v >> 8u64) as u8 && b7 == v as u8);
    assert(b0 == (v >> 56u64) as u8 && b1 == (v >> 48u64) as u8 && b2 == (v >> 40u64) as u8
        && b3 == (v >> 32u64) as u8 && b4 == (v >> 24u64) as u8 && b5 == (v >> 16u64) as u8
        && b6 == (v >> 8u64) as u8 && b7 == v as u8 ==> ((b0 as u64) << 56u64) | ((b1 as u64)
        << 48u64) | ((b2 as u64) << 40u64) | ((b3 as u64) << 32u64) | ((b4 as u64) << 24u64)
        | ((b5 as u64) << 16u64) | ((b6 as u64) << 8u64) | (b7 as u64) == v) by (bit_vector);
}

/// Relies on byteorder's `BigEndian::read_u16`: the first two bytes, most
/// significant first; it panics on fewer than two.
#[verifier::external_body]
pub(crate) fn read_u16(buf: &[u8]) -> (r: u16)
    requires
        buf@.len() >= 2,
    ensures
        r == be_u16(buf@),
{
    byteorder::BigEndian::read_u16(buf)
}

/// Relies on byteorder's `BigEndian::read_u32`: the first four bytes, most
/// significant first; it panics on fewer than four.
#[verifier::external_body]
pub(crate) fn read_u32(buf: &[u8]) -> (r: u32)
    requires
        buf@.len() >= 4,
    ensures
        r == be_u32(buf@),
{
    byteorder::BigEndian::read_u32(buf)
}

/// Relies on byteorder's `BigEndian::read_u64`: the first eight bytes, most
/// significant first; it panics on fewer than eight.
#[verifier::external_body]
pub(crate) fn read_u64(buf: &[u8]) -> (r: u64)
    requires
        buf@.len() >= 8,
    ensures
        r == be_u64(buf@),
{
    byteorder::BigEndian::read_u64(buf)
}

/// Relies on byteorder's `BigEndian::write_u16`: it writes the two bytes of
/// `n` at the start of `buf`, most significant first, and nothing else; it
/// panics on fewer than two.
#[verifier::external_body]
fn write_u16(buf: &mut [u8], n: u16)
    requires
        old(buf)@.len() >= 2,
    ensures
        final(buf)@ == u16_be(n) + old(buf)@.skip(2),
{
    byteorder::BigEndian::write_u16(buf, n)
}

/// Relies on byteorder's `BigEndian::write_u32`: it writes the four bytes of
/// `n` at the start of `buf`, most significant first, and nothing else; it
/// panics on fewer than four.
#[verifier::external_body]
fn write_u32(buf: &mut [u8], n: u32)
    requires
        old(buf)@.len() >= 4,
    ensures
        final(buf)@ == u32_be(n) + old(buf)@.skip(4),
{
    byteorder::BigEndian::write_u32(buf, n)
}

/// Relies on byteorder's `BigEndian::write_u64`: it writes the eight bytes of
/// `n` at the start of `buf`, most significant first, and nothing else; it
/// panics on fewer than eight.
#[verifier::external_body]
fn write_u64(buf: &mut [u8], n: u64)
    requires
        old(buf)@.len() >= 8,
    ensures
        final(buf)@ == u64_be(n) + old(buf)@.skip(8),
{
    byteorder::BigEndian::write_u64(buf, n)
}

/// Writes the low 24 bits of `val` at the start of `buf`, most significant
/// first, and returns the number of bytes written.
pub fn encode_u24(buf: &mut [u8], val: u32) -> (n: usize)
    requires
        old(buf)@.len() >= 3,
    ensures
        n == 3,
        final(buf)@ == u24_be(val) + old(buf)@.skip(3),
{
    buf[0] = (val >> 16u32) as u8;
    buf[1] = (val >> 8u32) as u8;
    buf[2] = val as u8;
    assert(buf@ =~= u24_be(val) + old(buf)@.skip(3));
    3
}

/// Writes `val` big-endian at the start of `buf` and returns the number of
/// bytes written.
pub fn encode_u16(buf: &mut [u8], val: u16) -> (n: usize)
    requires
        old(buf)@.len() >= 2,
    ensures
        n == 2,
        final(buf)@ == u16_be(val) + old(buf)@.skip(2),
{
    write_u16(buf, val);
    2
}

/// Writes `val` big-endian at the start of `buf` and returns the number of
/// bytes written.
pub fn encode_u32(buf: &mut [u8], val: u32) -> (n: usize)
    requires
        old(buf)@.len() >= 4,
    ensures
        n == 4,
        final(buf)@ == u32_be(val) + old(buf)@.skip(4),
{
    write_u32(buf, val);
    4
}

/// Writes `val` big-endian at the start of `buf` and returns the number of
/// bytes written.
pub fn encode_u64(buf: &mut [u8], val: u64) -> (n: usize)
    requires
        old(buf)@.len() >= 8,
    ensures
        n == 8,
        final(buf)@ == u64_be(val) + old(buf)@.skip(8),
{
    write_u64(buf, val);
    8
}

/// Copies `src` into `buf` from position `at` and returns the number of
/// bytes copied.
pub fn encode_memory(src: &[u8], buf: &mut [u8], at: usize) -> (n: usize)
    requires
        at + src@.len() <= old(buf)@.len(),
    ensures
        n == src@.len(),
        final(buf)@ == overwrite(old(buf)@, at as int, src@),
{
    let mut i: usize = 0;
    while i < src.len()
        invariant
            i <= src@.len(),
            at + src@.len() <= buf.len(),
            buf@.len() == old(buf)@.len(),
            buf@ == overwrite(old(buf)@, at as int, src@.take(i as int)),
        decreases src@.len() - i,
    {
        buf[at + i] = src[i];
        i = i + 1;
        assert(buf@ =~= overwrite(old(buf)@, at as int, src@.take(i as int)));
    }
    assert(src@.take(i as int) =~= src@);
    i
}

} // verus!
