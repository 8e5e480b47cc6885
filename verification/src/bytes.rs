//! Little-endian byte conversions, done by the `byteorder` crate.
//!
//! Each function here wraps one `byteorder` call; the contracts state the
//! exact arithmetic that the crate documents for little-endian order.

use vstd::prelude::*;

use byteorder::ByteOrder;

use crate::layout::as_signed_32;
use crate::layout::as_unsigned_32;
use crate::layout::le2;
use crate::layout::le4;
use crate::layout::le_byte;

verus! {

/// Relies on byteorder::LittleEndian::read_u16: the value of two
/// little-endian bytes.
#[verifier::external_body]
pub(crate) fn le_read_u16(b0: u8, b1: u8) -> (r: u16)
    ensures
        r == le2(b0, b1),
{
    byteorder::LittleEndian::read_u16(&[b0, b1])
}

/// Relies on byteorder::LittleEndian::read_u32: the value of four
/// little-endian bytes.
#[verifier::external_body]
pub(crate) fn le_read_u32(b0: u8, b1: u8, b2: u8, b3: u8) -> (r: u32)
    ensures
        r == le4(b0, b1, b2, b3),
{
    byteorder::LittleEndian::read_u32(&[b0, b1, b2, b3])
}

/// Relies on byteorder::LittleEndian::read_i32: the value of four
/// little-endian bytes, reinterpreted as a signed two's-complement number.
#[verifier::external_body]
pub(crate) fn le_read_i32(b0: u8, b1: u8, b2: u8, b3: u8) -> (r: i32)
    ensures
        r as int == as_signed_32(le4(b0, b1, b2, b3)),
{
    byteorder::LittleEndian::read_i32(&[b0, b1, b2, b3])
}

/// Relies on byteorder::LittleEndian::write_u16: the two little-endian
/// bytes of the value.
#[verifier::external_body]
pub(crate) fn le_write_u16(n: u16) -> (r: (u8, u8))
    ensures
        r.0 == le_byte(n as int, 0),
        r.1 == le_byte(n as int, 1),
{
    let mut buf = [0u8; 2];
    byteorder::LittleEndian::write_u16(&mut buf, n);
    (buf[0], buf[1])
}

/// Relies on byteorder::LittleEndian::write_u32: the four little-endian
/// bytes of the value.
#[verifier::external_body]
pub(crate) fn le_write_u32(n: u32) -> (r: (u8, u8, u8, u8))
    ensures
        r.0 == le_byte(n as int, 0),
        r.1 == le_byte(n as int, 1),
        r.2 == le_byte(n as int, 2),
        r.3 == le_byte(n as int, 3),
{
    let mut buf = [0u8; 4];
    byteorder::LittleEndian::write_u32(&mut buf, n);
    (buf[0], buf[1], buf[2], buf[3])
}

/// Relies on byteorder::LittleEndian::write_i32: the four little-endian
/// bytes of the value's two's-complement bit pattern.
#[verifier::external_body]
pub(crate) fn le_write_i32(n: i32) -> (r: (u8, u8, u8, u8))
    ensures
        r.0 == le_byte(as_unsigned_32(n as int), 0),
        r.1 == le_byte(as_unsigned_32(n as int), 1),
        r.2 == le_byte(as_unsigned_32(n as int), 2),
        r.3 == le_byte(as_unsigned_32(n as int), 3),
{
    let mut buf = [0u8; 4];
    byteorder::LittleEndian::write_i32(&mut buf, n);
    (buf[0], buf[1], buf[2], buf[3])
}

} // verus!
