//! Little-endian readers and writers for the integer fields and the PCM
//! payload, together with the spec-level byte images they are proved
//! against. The executable conversions are delegated to the byteorder
//! crate behind trusted wrappers.

use vstd::prelude::*;

use byteorder::ByteOrder;

verus! {

use vstd::bytes::{spec_u16_to_le_bytes, spec_u16_from_le_bytes, spec_u32_to_le_bytes,
    spec_u32_from_le_bytes};

/// The two's-complement 16-bit image of a signed sample.
pub open spec fn spec_u16_of_i16(x: i16) -> u16 {
    if x >= 0 {
        x as u16
    } else {
        (x + 0x10000) as u16
    }
}

/// The signed sample denoted by a two's-complement 16-bit image.
pub open spec fn spec_i16_of_u16(u: u16) -> i16 {
    if u < 0x8000 {
        u as i16
    } else {
        (u - 0x10000) as i16
    }
}

pub proof fn lemma_i16_u16_round_trip()
    ensures
        forall|x: i16| #[trigger] spec_i16_of_u16(spec_u16_of_i16(x)) == x,
        forall|u: u16| #[trigger] spec_u16_of_i16(spec_i16_of_u16(u)) == u,
{
}

/// The little-endian byte image of a sequence of signed 16-bit samples.
pub open spec fn spec_le_samples(s: Seq<i16>) -> Seq<u8> {
    Seq::new(2 * s.len(), |i: int| spec_u16_to_le_bytes(spec_u16_of_i16(s[i / 2]))[i % 2])
}

/// The samples read from a byte sequence two bytes at a time; a trailing
/// odd byte carries no sample.
pub open spec fn spec_samples_of_bytes(b: Seq<u8>) -> Seq<i16> {
    Seq::new(
        b.len() / 2,
        |i: int| spec_i16_of_u16(spec_u16_from_le_bytes(seq![b[2 * i], b[2 * i + 1]])),
    )
}

/// Relies on byteorder's `LittleEndian::read_u32`: the little-endian
/// unsigned 32-bit integer held in the first four bytes.
#[verifier::external_body]
pub fn le_u32_from_bytes(b: &[u8]) -> (r: u32)
    requires
        b@.len() >= 4,
    ensures
        r == spec_u32_from_le_bytes(b@.subrange(0, 4)),
{
    byteorder::LittleEndian::read_u32(b)
}

/// Relies on byteorder's `LittleEndian::write_u32`: the four little-endian
/// bytes of an unsigned 32-bit integer.
#[verifier::external_body]
pub fn le_u32_to_bytes(v: u32) -> (r: Vec<u8>)
    ensures
        r@ == spec_u32_to_le_bytes(v),
{
    let mut buf = [0u8; 4];
    byteorder::LittleEndian::write_u32(&mut buf, v);
    buf.to_vec()
}

/// Relies on byteorder's `LittleEndian::read_i16`: the little-endian
/// signed 16-bit integer held in two bytes.
#[verifier::external_body]
pub fn le_i16_from_bytes(b0: u8, b1: u8) -> (r: i16)
    ensures
        spec_u16_of_i16(r) == spec_u16_from_le_bytes(seq![b0, b1]),
{
    byteorder::LittleEndian::read_i16(&[b0, b1])
}

/// Relies on byteorder's `LittleEndian::write_i16`: the two little-endian
/// bytes of a signed 16-bit integer.
#[verifier::external_body]
pub fn le_i16_to_bytes(v: i16) -> (r: (u8, u8))
    ensures
        seq![r.0, r.1] == spec_u16_to_le_bytes(spec_u16_of_i16(v)),
{
    let mut buf = [0u8; 2];
    byteorder::LittleEndian::write_i16(&mut buf, v);
    (buf[0], buf[1])
}

} // verus!
