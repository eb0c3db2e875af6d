//! Little-endian fields at absolute positions of a file's bytes.
use vstd::prelude::*;
use vstd::bytes::{
    spec_u16_from_le_bytes, spec_u32_from_le_bytes, spec_u64_from_le_bytes, u16_from_le_bytes,
    u32_from_le_bytes, u64_from_le_bytes,
};
use vstd::slice::slice_subrange;

verus! {

/// Whether `n` bytes starting at `p` lie within `s`.
pub open spec fn fits(s: Seq<u8>, p: int, n: int) -> bool {
    0 <= p && 0 <= n && p + n <= s.len()
}

/// The little-endian `u16` at `p`.
pub open spec fn le16(s: Seq<u8>, p: int) -> u16 {
    spec_u16_from_le_bytes(s.subrange(p, p + 2))
}

/// The little-endian `u32` at `p`.
pub open spec fn le32(s: Seq<u8>, p: int) -> u32 {
    spec_u32_from_le_bytes(s.subrange(p, p + 4))
}

/// The little-endian `u64` at `p`.
pub open spec fn le64(s: Seq<u8>, p: int) -> u64 {
    spec_u64_from_le_bytes(s.subrange(p, p + 8))
}

/// Whether `n` bytes starting at `p` lie within `s`, computed without overflow.
pub fn fits_at(s: &[u8], p: u64, n: u64) -> (res: bool)
    ensures
        res == fits(s@, p as int, n as int),
{
    let len = s.len() as u64;
    p <= len && n <= len - p
}

pub fn read_u16_at(s: &[u8], p: usize) -> (v: u16)
    requires
        fits(s@, p as int, 2),
    ensures
        v == le16(s@, p as int),
{
    let n = s.len();
    assert(p + 2 <= n);
    u16_from_le_bytes(slice_subrange(s, p, p + 2))
}

pub fn read_u32_at(s: &[u8], p: usize) -> (v: u32)
    requires
        fits(s@, p as int, 4),
    ensures
        v == le32(s@, p as int),
{
    let n = s.len();
    assert(p + 4 <= n);
    u32_from_le_bytes(slice_subrange(s, p, p + 4))
}

pub fn read_u64_at(s: &[u8], p: usize) -> (v: u64)
    requires
        fits(s@, p as int, 8),
    ensures
        v == le64(s@, p as int),
{
    let n = s.len();
    assert(p + 8 <= n);
    u64_from_le_bytes(slice_subrange(s, p, p + 8))
}

} // verus!
