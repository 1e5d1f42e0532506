//! Byte order and the fixed-width integer encodings used by the format.

use byteorder::{BigEndian, ByteOrder, LittleEndian};
use vstd::prelude::*;

verus! {

/// The order in which the bytes of multi-byte fields are laid out.
#[derive(Debug, Clone, Copy, PartialEq, Eq, Structural)]
pub enum Endianness {
    Big,
    Little,
}

/// The big-endian value of two bytes.
pub open spec fn u16_from_be(b0: u8, b1: u8) -> u16 {
    ((b0 as u16) << 8u16) | (b1 as u16)
}

/// The big-endian value of four bytes.
pub open spec fn u32_from_be(b0: u8, b1: u8, b2: u8, b3: u8) -> u32 {
    ((b0 as u32) << 24u32) | ((b1 as u32) << 16u32) | ((b2 as u32) << 8u32) | (b3 as u32)
}

/// The two bytes of `n`, most significant first.
pub open spec fn u16_be_bytes(n: u16) -> Seq<u8> {
    seq![(n >> 8u16) as u8, n as u8]
}

/// The four bytes of `n`, most significant first.
pub open spec fn u32_be_bytes(n: u32) -> Seq<u8> {
    seq![(n >> 24u32) as u8, (n >> 16u32) as u8, (n >> 8u32) as u8, n as u8]
}

/// The value of the two bytes of `b` at `at`, in the given order.
pub open spec fn read_u16_spec(e: Endianness, b: Seq<u8>, at: int) -> u16 {
    match e {
        Endianness::Big => u16_from_be(b[at], b[at + 1]),
        Endianness::Little => u16_from_be(b[at + 1], b[at]),
    }
}

/// The value of the four bytes of `b` at `at`, in the given order.
pub open spec fn read_u32_spec(e: Endianness, b: Seq<u8>, at: int) -> u32 {
    match e {
        Endianness::Big => u32_from_be(b[at], b[at + 1], b[at + 2], b[at + 3]),
        Endianness::Little => u32_from_be(b[at + 3], b[at + 2], b[at + 1], b[at]),
    }
}

/// The encoding of `n` in two bytes, in the given order.
pub open spec fn u16_bytes(e: Endianness, n: u16) -> Seq<u8> {
    match e {
        Endianness::Big => u16_be_bytes(n),
        Endianness::Little => seq![n as u8, (n >> 8u16) as u8],
    }
}

/// The encoding of `n` in four bytes, in the given order.
pub open spec fn u32_bytes(e: Endianness, n: u32) -> Seq<u8> {
    match e {
        Endianness::Big => u32_be_bytes(n),
        Endianness::Little => seq![n as u8, (n >> 8u16) as u8, (n >> 16u32) as u8, (n >> 24u32) as u8],
    }
}

proof fn lemma_u16_bits(n: u16)
    ensures
        ((((n >> 8u16) as u8) as u16) << 8u16) | ((n as u8) as u16) == n,
{
    assert(((((n >> 8u16) as u8) as u16) << 8u16) | ((n as u8) as u16) == n) by (bit_vector);
}

proof fn lemma_u32_bits(n: u32)
    ensures
        ((((n >> 24u32) as u8) as u32) << 24u32) | ((((n >> 16u32) as u8) as u32) << 16u32)
            | ((((n >> 8u32) as u8) as u32) << 8u32) | ((n as u8) as u32) == n,
{
    assert(((((n >> 24u32) as u8) as u32) << 24u32) | ((((n >> 16u32) as u8) as u32) << 16u32)
        | ((((n >> 8u32) as u8) as u32) << 8u32) | ((n as u8) as u32) == n) by (bit_vector);
}

/// Reading back the two bytes that encode `n` gives `n`.
pub proof fn lemma_u16_round_trip(e: Endianness, n: u16, b: Seq<u8>, at: int)
    requires
        0 <= at,
        at + 2 <= b.len(),
        b.subrange(at, at + 2) == u16_bytes(e, n),
    ensures
        read_u16_spec(e, b, at) == n,
{
    assert(b[at] == b.subrange(at, at + 2)[0]);
    assert(b[at + 1] == b.subrange(at, at + 2)[1]);
    lemma_u16_bits(n);
}

/// Reading back the four bytes that encode `n` gives `n`.
pub proof fn lemma_u32_round_trip(e: Endianness, n: u32, b: Seq<u8>, at: int)
    requires
        0 <= at,
        at + 4 <= b.len(),
        b.subrange(at, at + 4) == u32_bytes(e, n),
    ensures
        read_u32_spec(e, b, at) == n,
{
    let s = b.subrange(at, at + 4);
    assert(b[at] == s[0]);
    assert(b[at + 1] == s[1]);
    assert(b[at + 2] == s[2]);
    assert(b[at + 3] == s[3]);
    lemma_u32_bits(n);
}

/// Relies on byteorder's `BigEndian::read_u16`: the first two bytes, most
/// significant first. It panics on fewer than two bytes.
#[verifier::external_body]
fn be_read_u16(buf: &[u8]) -> (r: u16)
    requires
        buf@.len() >= 2,
    ensures
        r == u16_from_be(buf@[0], buf@[1]),
{
    BigEndian::read_u16(buf)
}

/// Relies on byteorder's `LittleEndian::read_u16`: the first two bytes, least
/// significant first. It panics on fewer than two bytes.
#[verifier::external_body]
fn le_read_u16(buf: &[u8]) -> (r: u16)
    requires
        buf@.len() >= 2,
    ensures
        r == u16_from_be(buf@[1], buf@[0]),
{
    LittleEndian::read_u16(buf)
}

/// Relies on byteorder's `BigEndian::read_u32`: the first four bytes, most
/// significant first. It panics on fewer than four bytes.
#[verifier::external_body]
fn be_read_u32(buf: &[u8]) -> (r: u32)
    requires
        buf@.len() >= 4,
    ensures
        r == u32_from_be(buf@[0], buf@[1], buf@[2], buf@[3]),
{
    BigEndian::read_u32(buf)
}

/// Relies on byteorder's `LittleEndian::read_u32`: the first four bytes,
/// least significant first. It panics on fewer than four bytes.
#[verifier::external_body]
fn le_read_u32(buf: &[u8]) -> (r: u32)
    requires
        buf@.len() >= 4,
    ensures
        r == u32_from_be(buf@[3], buf@[2], buf@[1], buf@[0]),
{
    LittleEndian::read_u32(buf)
}

/// Relies on byteorder's `BigEndian::write_u16`: it stores `n` most
/// significant byte first.
#[verifier::external_body]
fn be_write_u16(n: u16) -> (r: [u8; 2])
    ensures
        r@ == u16_bytes(Endianness::Big, n),
{
    let mut b = [0u8; 2];
    BigEndian::write_u16(&mut b, n);
    b
}

/// Relies on byteorder's `LittleEndian::write_u16`: it stores `n` least
/// significant byte first.
#[verifier::external_body]
fn le_write_u16(n: u16) -> (r: [u8; 2])
    ensures
        r@ == u16_bytes(Endianness::Little, n),
{
    let mut b = [0u8; 2];
    LittleEndian::write_u16(&mut b, n);
    b
}

/// Relies on byteorder's `BigEndian::write_u32`: it stores `n` most
/// significant byte first.
#[verifier::external_body]
fn be_write_u32(n: u32) -> (r: [u8; 4])
    ensures
        r@ == u32_bytes(Endianness::Big, n),
{
    let mut b = [0u8; 4];
    BigEndian::write_u32(&mut b, n);
    b
}

/// Relies on byteorder's `LittleEndian::write_u32`: it stores `n` least
/// significant byte first.
#[verifier::external_body]
fn le_write_u32(n: u32) -> (r: [u8; 4])
    ensures
        r@ == u32_bytes(Endianness::Little, n),
{
    let mut b = [0u8; 4];
    LittleEndian::write_u32(&mut b, n);
    b
}

/// Reads the two bytes of `buf` at `at` in the given order.
pub fn read_u16(e: Endianness, buf: &[u8], at: usize) -> (r: u16)
    requires
        at + 2 <= buf@.len(),
    ensures
        r == read_u16_spec(e, buf@, at as int),
{
    let len = buf.len();
    assert(at + 2 <= len);
    let part = vstd::slice::slice_subrange(buf, at, at + 2);
    match e {
        Endianness::Big => be_read_u16(part),
        Endianness::Little => le_read_u16(part),
    }
}

/// Reads the four bytes of `buf` at `at` in the given order.
pub fn read_u32(e: Endianness, buf: &[u8], at: usize) -> (r: u32)
    requires
        at + 4 <= buf@.len(),
    ensures
        r == read_u32_spec(e, buf@, at as int),
{
    let len = buf.len();
    assert(at + 4 <= len);
    let part = vstd::slice::slice_subrange(buf, at, at + 4);
    match e {
        Endianness::Big => be_read_u32(part),
        Endianness::Little => le_read_u32(part),
    }
}

/// Appends every byte of `b` to `out`.
pub fn append_bytes(out: &mut Vec<u8>, b: &[u8])
    ensures
        final(out)@ == old(out)@ + b@,
{
    let mut i: usize = 0;
    while i < b.len()
        invariant
            i <= b@.len(),
            out@ == old(out)@ + b@.subrange(0, i as int),
        decreases b@.len() - i,
    {
        out.push(b[i]);
        i = i + 1;
        assert(b@.subrange(0, i as int) == b@.subrange(0, i - 1) + seq![b@[i - 1]]);
    }
    assert(b@.subrange(0, b@.len() as int) == b@);
}

/// Appends the encoding of `n` in the given order to `out`.
pub fn write_u16(e: Endianness, out: &mut Vec<u8>, n: u16)
    ensures
        final(out)@ == old(out)@ + u16_bytes(e, n),
{
    let b = match e {
        Endianness::Big => be_write_u16(n),
        Endianness::Little => le_write_u16(n),
    };
    append_bytes(out, b.as_slice());
}

/// Appends the encoding of `n` in the given order to `out`.
pub fn write_u32(e: Endianness, out: &mut Vec<u8>, n: u32)
    ensures
        final(out)@ == old(out)@ + u32_bytes(e, n),
{
    let b = match e {
        Endianness::Big => be_write_u32(n),
        Endianness::Little => le_write_u32(n),
    };
    append_bytes(out, b.as_slice());
}

} // verus!
