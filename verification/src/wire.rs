//! Scalar pieces of the record wire format.
//!
//! Every multi-byte integer is little-endian; a signed timestamp travels as
//! its 64-bit two's-complement image.  The functions here read and write one
//! scalar at a time against the `vstd::bytes` specifications; the record
//! codec composes them.

use vstd::prelude::*;
use vstd::bytes::{
    spec_u32_from_le_bytes, spec_u32_to_le_bytes, spec_u64_from_le_bytes, spec_u64_to_le_bytes,
    spec_u128_from_le_bytes, spec_u128_to_le_bytes, u32_from_le_bytes, u32_to_le_bytes,
    u64_from_le_bytes, u64_to_le_bytes, u128_from_le_bytes, u128_to_le_bytes,
};

verus! {

/// Two's-complement image of a signed 64-bit value.
pub open spec fn spec_i64_wire(x: i64) -> u64 {
    if x >= 0 {
        x as u64
    } else {
        (x + 0x1_0000_0000_0000_0000) as u64
    }
}

/// Signed value behind a two's-complement image; inverse of `spec_i64_wire`.
pub open spec fn spec_i64_from_wire(w: u64) -> i64 {
    if w < 0x8000_0000_0000_0000 {
        w as i64
    } else {
        (w - 0x1_0000_0000_0000_0000) as i64
    }
}

/// Little-endian encoding of a signed 64-bit value.
pub open spec fn spec_i64_to_le_bytes(x: i64) -> Seq<u8> {
    spec_u64_to_le_bytes(spec_i64_wire(x))
}

/// Little-endian decoding of a signed 64-bit value.
pub open spec fn spec_i64_from_le_bytes(s: Seq<u8>) -> i64 {
    spec_i64_from_wire(spec_u64_from_le_bytes(s))
}

pub fn i64_to_wire(x: i64) -> (w: u64)
    ensures
        w == spec_i64_wire(x),
{
    let wide: i128 = x as i128;
    let shifted: i128 = if wide < 0 {
        wide + 0x1_0000_0000_0000_0000i128
    } else {
        wide
    };
    shifted as u64
}

pub fn wire_to_i64(w: u64) -> (x: i64)
    ensures
        x == spec_i64_from_wire(w),
{
    let wide: i128 = w as i128;
    let shifted: i128 = if wide >= 0x8000_0000_0000_0000i128 {
        wide - 0x1_0000_0000_0000_0000i128
    } else {
        wide
    };
    shifted as i64
}

/// The all-zero 32-byte string.
pub open spec fn spec_zero32() -> Seq<u8> {
    Seq::new(32, |_i: int| 0u8)
}

/// The all-zero 32-byte array.
pub fn zero32() -> (r: [u8; 32])
    ensures
        r@ == spec_zero32(),
{
    let a = [0u8; 32];
    proof {
        assert(a@ =~= spec_zero32());
    }
    a
}

/// Append the 32 bytes of `a` to `out`.
pub fn push_array32(out: &mut Vec<u8>, a: &[u8; 32])
    ensures
        final(out)@ == old(out)@ + a@,
{
    let mut i: usize = 0;
    while i < 32
        invariant
            i <= 32,
            out@ == old(out)@ + a@.subrange(0, i as int),
        decreases 32 - i,
    {
        out.push(a[i]);
        i = i + 1;
        proof {
            assert(a@.subrange(0, i as int)
                == a@.subrange(0, i - 1).push(a@[i - 1]));
        }
    }
    proof {
        assert(a@.subrange(0, 32) == a@);
    }
}

/// Append the little-endian bytes of `x` to `out`.
pub fn push_u64_le(out: &mut Vec<u8>, x: u64)
    ensures
        final(out)@ == old(out)@ + spec_u64_to_le_bytes(x),
{
    let mut b = u64_to_le_bytes(x);
    out.append(&mut b);
}

/// Append the little-endian bytes of `x` to `out`.
pub fn push_u32_le(out: &mut Vec<u8>, x: u32)
    ensures
        final(out)@ == old(out)@ + spec_u32_to_le_bytes(x),
{
    let mut b = u32_to_le_bytes(x);
    out.append(&mut b);
}

/// Append the little-endian bytes of `x` to `out`.
pub fn push_u128_le(out: &mut Vec<u8>, x: u128)
    ensures
        final(out)@ == old(out)@ + spec_u128_to_le_bytes(x),
{
    let mut b = u128_to_le_bytes(x);
    out.append(&mut b);
}

/// Append the little-endian two's-complement bytes of `x` to `out`.
pub fn push_i64_le(out: &mut Vec<u8>, x: i64)
    ensures
        final(out)@ == old(out)@ + spec_i64_to_le_bytes(x),
{
    push_u64_le(out, i64_to_wire(x));
}

/// Copy 32 bytes of `s` starting at `off` into an array.
pub fn read_array32(s: &[u8], off: usize) -> (r: [u8; 32])
    requires
        off + 32 <= s@.len(),
    ensures
        r@ == s@.subrange(off as int, off + 32),
{
    let n: usize = s.len();
    let mut a = [0u8; 32];
    let mut i: usize = 0;
    while i < 32
        invariant
            i <= 32,
            n == s@.len(),
            off + 32 <= s@.len(),
            a@.len() == 32,
            forall|j: int| 0 <= j < i ==> a@[j] == s@[off + j],
        decreases 32 - i,
    {
        a[i] = s[off + i];
        i = i + 1;
    }
    proof {
        assert(a@ =~= s@.subrange(off as int, off + 32));
    }
    a
}

/// Read a little-endian unsigned 64-bit value at `off`.
pub fn read_u64_le(s: &[u8], off: usize) -> (x: u64)
    requires
        off + 8 <= s@.len(),
    ensures
        x == spec_u64_from_le_bytes(s@.subrange(off as int, off + 8)),
{
    let _n: usize = s.len();
    u64_from_le_bytes(&s[off..off + 8])
}

/// Read a little-endian unsigned 32-bit value at `off`.
pub fn read_u32_le(s: &[u8], off: usize) -> (x: u32)
    requires
        off + 4 <= s@.len(),
    ensures
        x == spec_u32_from_le_bytes(s@.subrange(off as int, off + 4)),
{
    let _n: usize = s.len();
    u32_from_le_bytes(&s[off..off + 4])
}

/// Read a little-endian unsigned 128-bit value at `off`.
pub fn read_u128_le(s: &[u8], off: usize) -> (x: u128)
    requires
        off + 16 <= s@.len(),
    ensures
        x == spec_u128_from_le_bytes(s@.subrange(off as int, off + 16)),
{
    let _n: usize = s.len();
    u128_from_le_bytes(&s[off..off + 16])
}

/// Read a little-endian signed 64-bit value at `off`.
pub fn read_i64_le(s: &[u8], off: usize) -> (x: i64)
    requires
        off + 8 <= s@.len(),
    ensures
        x == spec_i64_from_le_bytes(s@.subrange(off as int, off + 8)),
{
    wire_to_i64(read_u64_le(s, off))
}

} // verus!
