//! Big-endian reads of fixed-width integers out of a byte slice.

use vstd::prelude::*;

verus! {

/// The unsigned 16-bit big-endian value of `s[p..p + 2]`.
pub open spec fn be16(s: Seq<u8>, p: int) -> int {
    s[p] as int * 0x100 + s[p + 1] as int
}

/// The unsigned 32-bit big-endian value of `s[p..p + 4]`.
pub open spec fn be32(s: Seq<u8>, p: int) -> int {
    be16(s, p) * 0x10000 + be16(s, p + 2)
}

/// Two's complement reading of a 16-bit pattern.
pub open spec fn signed16(u: int) -> int {
    if u >= 0x8000 { u - 0x10000 } else { u }
}

/// Two's complement reading of a 32-bit pattern.
pub open spec fn signed32(u: int) -> int {
    if u >= 0x8000_0000 { u - 0x1_0000_0000 } else { u }
}

pub open spec fn spec_u16_at(s: Seq<u8>, p: int) -> u16 {
    be16(s, p) as u16
}

pub open spec fn spec_i16_at(s: Seq<u8>, p: int) -> i16 {
    signed16(be16(s, p)) as i16
}

pub open spec fn spec_u32_at(s: Seq<u8>, p: int) -> u32 {
    be32(s, p) as u32
}

pub open spec fn spec_i32_at(s: Seq<u8>, p: int) -> i32 {
    signed32(be32(s, p)) as i32
}

/// True when `n` bytes starting at `p` lie inside `s`.
pub open spec fn fits(s: Seq<u8>, p: int, n: int) -> bool {
    0 <= p && p + n <= s.len()
}

/// Whether `n` bytes starting at `pos` are available; never overflows.
pub fn has_bytes(data: &[u8], pos: usize, n: usize) -> (r: bool)
    ensures
        r == fits(data@, pos as int, n as int),
        data@.len() <= usize::MAX,
{
    pos <= data.len() && data.len() - pos >= n
}

/// The byte at `p`, or zero past the end of `s`.
pub open spec fn spec_byte_or_zero(s: Seq<u8>, p: int) -> u8 {
    if 0 <= p < s.len() { s[p] } else { 0 }
}

/// The byte `off` places after `pos`, or zero past the end of `data`.
pub fn byte_or_zero(data: &[u8], pos: usize, off: usize) -> (r: u8)
    requires
        pos <= data@.len(),
    ensures
        r == spec_byte_or_zero(data@, pos + off),
{
    if off < data.len() - pos {
        data[pos + off]
    } else {
        0
    }
}

pub fn u8_at(data: &[u8], pos: usize) -> (r: u8)
    requires
        fits(data@, pos as int, 1),
    ensures
        r == data@[pos as int],
{
    data[pos]
}

pub fn u16_at(data: &[u8], pos: usize) -> (r: u16)
    requires
        fits(data@, pos as int, 2),
    ensures
        r == spec_u16_at(data@, pos as int),
        r as int == be16(data@, pos as int),
{
    (data[pos] as u16) * 0x100 + data[pos + 1] as u16
}

pub fn i16_at(data: &[u8], pos: usize) -> (r: i16)
    requires
        fits(data@, pos as int, 2),
    ensures
        r == spec_i16_at(data@, pos as int),
        r as int == signed16(be16(data@, pos as int)),
{
    let u = u16_at(data, pos);
    if u >= 0x8000 {
        (u as i32 - 0x10000) as i16
    } else {
        u as i16
    }
}

pub fn u32_at(data: &[u8], pos: usize) -> (r: u32)
    requires
        fits(data@, pos as int, 4),
    ensures
        r == spec_u32_at(data@, pos as int),
        r as int == be32(data@, pos as int),
{
    proof {
        assert(pos + 4 <= data.len());
    }
    let hi = u16_at(data, pos) as u32;
    let lo = u16_at(data, pos + 2) as u32;
    hi * 0x10000 + lo
}

pub fn i32_at(data: &[u8], pos: usize) -> (r: i32)
    requires
        fits(data@, pos as int, 4),
    ensures
        r == spec_i32_at(data@, pos as int),
        r as int == signed32(be32(data@, pos as int)),
{
    let u = u32_at(data, pos);
    if u >= 0x8000_0000 {
        (u as i64 - 0x1_0000_0000) as i32
    } else {
        u as i32
    }
}

} // verus!
