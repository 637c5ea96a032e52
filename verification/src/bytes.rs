//! Little-endian integers in byte buffers.

use vstd::prelude::*;

verus! {

/// The unsigned 16-bit integer stored at `offset`, least-significant byte first.
pub open spec fn u16_le(bytes: Seq<u8>, offset: int) -> int {
    bytes[offset] + 256 * bytes[offset + 1]
}

/// The unsigned 32-bit integer stored at `offset`, least-significant byte first.
pub open spec fn u32_le(bytes: Seq<u8>, offset: int) -> int {
    u16_le(bytes, offset) + 65536 * u16_le(bytes, offset + 2)
}

/// The unsigned 64-bit integer stored at `offset`, least-significant byte first.
pub open spec fn u64_le(bytes: Seq<u8>, offset: int) -> int {
    u32_le(bytes, offset) + 4294967296 * u32_le(bytes, offset + 4)
}

/// The two's-complement 32-bit integer stored at `offset`, least-significant byte first.
pub open spec fn i32_le(bytes: Seq<u8>, offset: int) -> int {
    let raw = u32_le(bytes, offset);
    if raw < 2147483648 {
        raw
    } else {
        raw - 4294967296
    }
}

/// Reads the unsigned 16-bit integer at `offset`.
pub fn read_u16_le(bytes: &[u8], offset: usize) -> (value: u16)
    requires
        offset + 2 <= bytes@.len(),
    ensures
        value == u16_le(bytes@, offset as int),
{
    let low: u16 = bytes[offset] as u16;
    let high: u16 = bytes[offset + 1] as u16;
    low + 256 * high
}

/// Reads the unsigned 32-bit integer at `offset`.
pub fn read_u32_le(bytes: &[u8], offset: usize) -> (value: u32)
    requires
        offset + 4 <= bytes@.len(),
    ensures
        value == u32_le(bytes@, offset as int),
{
    // A slice is no longer than `usize::MAX`, so the offsets below cannot overflow.
    let _len: usize = bytes.len();
    let low: u32 = read_u16_le(bytes, offset) as u32;
    let high: u32 = read_u16_le(bytes, offset + 2) as u32;
    low + 65536 * high
}

/// Reads the unsigned 64-bit integer at `offset`.
pub fn read_u64_le(bytes: &[u8], offset: usize) -> (value: u64)
    requires
        offset + 8 <= bytes@.len(),
    ensures
        value == u64_le(bytes@, offset as int),
{
    // A slice is no longer than `usize::MAX`, so the offsets below cannot overflow.
    let _len: usize = bytes.len();
    let low: u64 = read_u32_le(bytes, offset) as u64;
    let high: u64 = read_u32_le(bytes, offset + 4) as u64;
    low + 4294967296 * high
}

/// Reads the signed 32-bit integer at `offset`.
pub fn read_i32_le(bytes: &[u8], offset: usize) -> (value: i32)
    requires
        offset + 4 <= bytes@.len(),
    ensures
        value == i32_le(bytes@, offset as int),
{
    let raw: u32 = read_u32_le(bytes, offset);
    if raw < 2147483648 {
        raw as i32
    } else {
        let above: i32 = (raw - 2147483648) as i32;
        above + i32::MIN
    }
}

} // verus!
