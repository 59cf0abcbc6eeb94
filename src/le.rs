use vstd::arithmetic::power2::pow2;
use vstd::prelude::*;

verus! {

/// The unsigned value of `b` read as a little-endian integer.
pub open spec fn le_uint(b: Seq<u8>) -> nat
    decreases b.len(),
{
    if b.len() == 0 {
        0
    } else {
        b[0] as nat + 256 * le_uint(b.drop_first())
    }
}

/// The two's-complement value of `b` read as a little-endian integer.
pub open spec fn le_sint(b: Seq<u8>) -> int {
    let u = le_uint(b);
    if b.len() > 0 && u >= pow2((8 * b.len() - 1) as nat) {
        u - pow2((8 * b.len()) as nat)
    } else {
        u as int
    }
}

/// Relies on byteorder's `LittleEndian::read_u16`: the first two bytes, little-endian.
#[verifier::external_body]
pub(crate) fn read_u16(b: &[u8]) -> (r: u16)
    requires
        b@.len() == 2,
    ensures
        r as int == le_uint(b@),
{
    <byteorder::LittleEndian as byteorder::ByteOrder>::read_u16(b)
}

/// Relies on byteorder's `LittleEndian::read_i16`: the first two bytes, little-endian, signed.
#[verifier::external_body]
pub(crate) fn read_i16(b: &[u8]) -> (r: i16)
    requires
        b@.len() == 2,
    ensures
        r as int == le_sint(b@),
{
    <byteorder::LittleEndian as byteorder::ByteOrder>::read_i16(b)
}

/// Relies on byteorder's `LittleEndian::read_u32`: the first four bytes, little-endian.
#[verifier::external_body]
pub(crate) fn read_u32(b: &[u8]) -> (r: u32)
    requires
        b@.len() == 4,
    ensures
        r as int == le_uint(b@),
{
    <byteorder::LittleEndian as byteorder::ByteOrder>::read_u32(b)
}

/// Relies on byteorder's `LittleEndian::read_i32`: the first four bytes, little-endian, signed.
#[verifier::external_body]
pub(crate) fn read_i32(b: &[u8]) -> (r: i32)
    requires
        b@.len() == 4,
    ensures
        r as int == le_sint(b@),
{
    <byteorder::LittleEndian as byteorder::ByteOrder>::read_i32(b)
}

/// Relies on byteorder's `LittleEndian::read_u64`: the first eight bytes, little-endian.
#[verifier::external_body]
pub(crate) fn read_u64(b: &[u8]) -> (r: u64)
    requires
        b@.len() == 8,
    ensures
        r as int == le_uint(b@),
{
    <byteorder::LittleEndian as byteorder::ByteOrder>::read_u64(b)
}

/// Relies on byteorder's `LittleEndian::read_i64`: the first eight bytes, little-endian, signed.
#[verifier::external_body]
pub(crate) fn read_i64(b: &[u8]) -> (r: i64)
    requires
        b@.len() == 8,
    ensures
        r as int == le_sint(b@),
{
    <byteorder::LittleEndian as byteorder::ByteOrder>::read_i64(b)
}

/// Relies on byteorder's `LittleEndian::read_u128`: the first sixteen bytes, little-endian.
#[verifier::external_body]
pub(crate) fn read_u128(b: &[u8]) -> (r: u128)
    requires
        b@.len() == 16,
    ensures
        r as int == le_uint(b@),
{
    <byteorder::LittleEndian as byteorder::ByteOrder>::read_u128(b)
}

} // verus!
