//! Little-endian integer readers over byte windows.
//!
//! Every multi-byte quantity in a ZIP archive is little-endian.  The spec
//! functions define the value a window holds at an offset; the executable
//! readers are proved to return exactly that value.

use vstd::prelude::*;

verus! {

/// The 16-bit little-endian value at offset `i` of `s`.
pub open spec fn le16(s: Seq<u8>, i: int) -> int {
    s[i] + s[i + 1] * 0x100
}

/// The 32-bit little-endian value at offset `i` of `s`.
pub open spec fn le32(s: Seq<u8>, i: int) -> int {
    le16(s, i) + le16(s, i + 2) * 0x10000
}

/// The 64-bit little-endian value at offset `i` of `s`.
pub open spec fn le64(s: Seq<u8>, i: int) -> int {
    le32(s, i) + le32(s, i + 4) * 0x100000000
}

/// Reads the 16-bit little-endian value at `at`.
pub fn read_u16(data: &[u8], at: usize) -> (r: u16)
    requires
        at + 2 <= data@.len(),
    ensures
        r == le16(data@, at as int),
{
    data[at] as u16 + data[at + 1] as u16 * 0x100
}

/// Reads the 32-bit little-endian value at `at`.
pub fn read_u32(data: &[u8], at: usize) -> (r: u32)
    requires
        at + 4 <= data@.len(),
    ensures
        r == le32(data@, at as int),
{
    data[at] as u32 + data[at + 1] as u32 * 0x100 + data[at + 2] as u32 * 0x10000 + data[at
        + 3] as u32 * 0x1000000
}

/// Reads the 64-bit little-endian value at `at`.
pub fn read_u64(data: &[u8], at: usize) -> (r: u64)
    requires
        at + 8 <= data@.len(),
    ensures
        r == le64(data@, at as int),
{
    proof {
        vstd::slice::axiom_spec_len::<u8>(data);
    }
    read_u32(data, at) as u64 + read_u32(data, at + 4) as u64 * 0x100000000
}

} // verus!
