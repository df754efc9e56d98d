//! Big-endian integer access through the `byteorder` crate.
use byteorder::{BigEndian, ByteOrder};
use vstd::prelude::*;

verus! {

/// The unsigned value of two bytes, high byte first.
pub open spec fn be16(hi: u8, lo: u8) -> int {
    hi * 256 + lo
}

/// The unsigned value of four bytes, most significant first.
pub open spec fn be32(b0: u8, b1: u8, b2: u8, b3: u8) -> int {
    b0 * 16777216 + b1 * 65536 + b2 * 256 + b3
}

/// Two's-complement reading of a 16-bit pattern.
pub open spec fn signed16(v: int) -> int {
    if v >= 32768 {
        v - 65536
    } else {
        v
    }
}

/// Two's-complement reading of a 32-bit pattern.
pub open spec fn signed32(v: int) -> int {
    if v >= 2147483648 {
        v - 4294967296
    } else {
        v
    }
}

/// `BigEndian::read_u16` on the two bytes at `off`: the first byte is the
/// high byte.
#[verifier::external_body]
pub(crate) fn read_u16_be(buf: &[u8], off: usize) -> (r: u16)
    requires
        off + 2 <= buf@.len(),
    ensures
        r == be16(buf@[off as int], buf@[off + 1]),
{
    BigEndian::read_u16(&buf[off..off + 2])
}

/// `BigEndian::read_i16` on the two bytes at `off`.
#[verifier::external_body]
pub(crate) fn read_i16_be(buf: &[u8], off: usize) -> (r: i16)
    requires
        off + 2 <= buf@.len(),
    ensures
        r == signed16(be16(buf@[off as int], buf@[off + 1])),
{
    BigEndian::read_i16(&buf[off..off + 2])
}

/// `BigEndian::read_u32` on the four bytes at `off`, most significant first.
#[verifier::external_body]
pub(crate) fn read_u32_be(buf: &[u8], off: usize) -> (r: u32)
    requires
        off + 4 <= buf@.len(),
    ensures
        r == be32(buf@[off as int], buf@[off + 1], buf@[off + 2], buf@[off + 3]),
{
    BigEndian::read_u32(&buf[off..off + 4])
}

/// `BigEndian::read_i32` on the four bytes at `off`.
#[verifier::external_body]
pub(crate) fn read_i32_be(buf: &[u8], off: usize) -> (r: i32)
    requires
        off + 4 <= buf@.len(),
    ensures
        r == signed32(be32(buf@[off as int], buf@[off + 1], buf@[off + 2], buf@[off + 3])),
{
    BigEndian::read_i32(&buf[off..off + 4])
}

/// `BigEndian::write_u16` into the two bytes at `off`: high byte first,
/// nothing else changes.
#[verifier::external_body]
pub(crate) fn write_u16_be(buf: &mut Vec<u8>, off: usize, n: u16)
    requires
        off + 2 <= old(buf)@.len(),
    ensures
        final(buf)@ == old(buf)@.update(off as int, (n / 256) as u8).update(
            off + 1,
            (n % 256) as u8,
        ),
{
    BigEndian::write_u16(&mut buf[off..off + 2], n)
}

/// `BigEndian::write_i16` into the two bytes at `off`: the two's-complement
/// pattern, high byte first.
#[verifier::external_body]
pub(crate) fn write_i16_be(buf: &mut Vec<u8>, off: usize, n: i16)
    requires
        off + 2 <= old(buf)@.len(),
    ensures
        final(buf)@ == old(buf)@.update(off as int, ((n as u16) / 256) as u8).update(
            off + 1,
            ((n as u16) % 256) as u8,
        ),
{
    BigEndian::write_i16(&mut buf[off..off + 2], n)
}

/// `BigEndian::write_u32` into the four bytes at `off`, most significant first.
#[verifier::external_body]
pub(crate) fn write_u32_be(buf: &mut Vec<u8>, off: usize, n: u32)
    requires
        off + 4 <= old(buf)@.len(),
    ensures
        final(buf)@ == old(buf)@.update(off as int, (n / 16777216) as u8).update(
            off + 1,
            ((n / 65536) % 256) as u8,
        ).update(off + 2, ((n / 256) % 256) as u8).update(off + 3, (n % 256) as u8),
{
    BigEndian::write_u32(&mut buf[off..off + 4], n)
}

/// `BigEndian::write_i32` into the four bytes at `off`: the two's-complement
/// pattern, most significant byte first.
#[verifier::external_body]
pub(crate) fn write_i32_be(buf: &mut Vec<u8>, off: usize, n: i32)
    requires
        off + 4 <= old(buf)@.len(),
    ensures
        final(buf)@ == old(buf)@.update(off as int, ((n as u32) / 16777216) as u8).update(
            off + 1,
            (((n as u32) / 65536) % 256) as u8,
        ).update(off + 2, (((n as u32) / 256) % 256) as u8).update(
            off + 3,
            ((n as u32) % 256) as u8,
        ),
{
    BigEndian::write_i32(&mut buf[off..off + 4], n)
}

} // verus!
