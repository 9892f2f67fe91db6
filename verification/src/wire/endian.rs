//! Little-endian integers in byte buffers.
use vstd::prelude::*;
use vstd::bytes::{spec_u32_from_le_bytes, spec_u32_to_le_bytes, spec_u64_from_le_bytes, spec_u64_to_le_bytes};
use byteorder::{ByteOrder, LittleEndian, WriteBytesExt};

verus! {

/// The signed reading of four little-endian bytes (two's complement).
pub open spec fn spec_i32_from_le_bytes(s: Seq<u8>) -> int
    recommends
        s.len() == 4,
{
    let u = spec_u32_from_le_bytes(s) as int;
    if u < 0x8000_0000 {
        u
    } else {
        u - 0x1_0000_0000
    }
}

/// Calls `byteorder::LittleEndian::read_u32` on the bytes from `at` on. The
/// contract claims that it decodes the four bytes at `at` least significant
/// byte first; the call panics on fewer than four bytes, which `requires`
/// rules out.
#[verifier::external_body]
pub(crate) fn read_u32(buf: &[u8], at: usize) -> (value: u32)
    requires
        at + 4 <= buf.len(),
    ensures
        value == spec_u32_from_le_bytes(buf@.subrange(at as int, at + 4)),
{
    LittleEndian::read_u32(&buf[at..])
}

/// Calls `byteorder::LittleEndian::read_i32` on the bytes from `at` on. The
/// contract claims that it reads the same four bytes as the unsigned form
/// and reinterprets them as a signed number.
#[verifier::external_body]
pub(crate) fn read_i32(buf: &[u8], at: usize) -> (value: i32)
    requires
        at + 4 <= buf.len(),
    ensures
        value == spec_i32_from_le_bytes(buf@.subrange(at as int, at + 4)),
{
    LittleEndian::read_i32(&buf[at..])
}

/// Calls `byteorder::LittleEndian::read_u64` on the bytes from `at` on. The
/// contract claims that it decodes the eight bytes at `at` least significant
/// byte first.
#[verifier::external_body]
pub(crate) fn read_u64(buf: &[u8], at: usize) -> (value: u64)
    requires
        at + 8 <= buf.len(),
    ensures
        value == spec_u64_from_le_bytes(buf@.subrange(at as int, at + 8)),
{
    LittleEndian::read_u64(&buf[at..])
}

/// Calls `byteorder::WriteBytesExt::write_u32` with `LittleEndian` on the
/// vector. The contract claims that four bytes are appended, least
/// significant first; writing to a vector does not fail.
#[verifier::external_body]
pub(crate) fn write_u32(out: &mut Vec<u8>, value: u32)
    ensures
        final(out)@ == old(out)@ + spec_u32_to_le_bytes(value),
{
    out.write_u32::<LittleEndian>(value).unwrap()
}

/// Calls `byteorder::WriteBytesExt::write_u64` with `LittleEndian` on the
/// vector. The contract claims that eight bytes are appended, least
/// significant first.
#[verifier::external_body]
pub(crate) fn write_u64(out: &mut Vec<u8>, value: u64)
    ensures
        final(out)@ == old(out)@ + spec_u64_to_le_bytes(value),
{
    out.write_u64::<LittleEndian>(value).unwrap()
}

} // verus!
