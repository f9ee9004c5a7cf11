//! Bit-field projection on fixed-width register values.
//!
//! A field of a register is a contiguous range of bits, named by the index of
//! its lowest bit and its width. Reading a field extracts the range and
//! right-justifies it; writing a field replaces exactly that range and
//! preserves every bit outside it.

use vstd::prelude::*;

verus! {

/// The mask with the low `w` bits set, for `1 <= w <= 16`.
pub open spec fn u16_lo_mask(w: u16) -> u16
    recommends
        1 <= w <= 16,
{
    0xFFFFu16 >> ((16 - w) as u16)
}

/// The mask covering the field of width `w` whose lowest bit is `lo`.
pub open spec fn u16_field_mask(lo: u16, w: u16) -> u16
    recommends
        1 <= w,
        lo + w <= 16,
{
    u16_lo_mask(w) << lo
}

/// The value of the field `[lo, lo + w)` of `v`, right-justified.
pub open spec fn u16_get_field(v: u16, lo: u16, w: u16) -> u16
    recommends
        1 <= w,
        lo + w <= 16,
{
    (v >> lo) & u16_lo_mask(w)
}

/// `v` with the field `[lo, lo + w)` replaced by the low `w` bits of `x`,
/// every other bit kept.
pub open spec fn u16_set_field(v: u16, lo: u16, w: u16, x: u16) -> u16
    recommends
        1 <= w,
        lo + w <= 16,
{
    (v & !u16_field_mask(lo, w)) | ((x & u16_lo_mask(w)) << lo)
}

/// Whether bit `b` of `v` is set: the boolean reading of a one-bit field.
pub open spec fn u16_get_bit(v: u16, b: u16) -> bool
    recommends
        b < 16,
{
    u16_get_field(v, b, 1) == 1
}

/// `v` with bit `b` set to `x` and every other bit kept.
pub open spec fn u16_set_bit(v: u16, b: u16, x: bool) -> u16
    recommends
        b < 16,
{
    u16_set_field(v, b, 1, if x { 1 } else { 0 })
}

/// Reading a field back after writing it yields the written value masked to
/// the field's width; a value that fits in the field round-trips exactly.
pub proof fn lemma_u16_field_roundtrip(v: u16, lo: u16, w: u16, x: u16)
    requires
        1 <= w,
        lo + w <= 16,
    ensures
        u16_get_field(u16_set_field(v, lo, w, x), lo, w) == (x & u16_lo_mask(w)),
        x <= u16_lo_mask(w) ==> u16_get_field(u16_set_field(v, lo, w, x), lo, w) == x,
{
    assert(u16_get_field(u16_set_field(v, lo, w, x), lo, w) == (x & u16_lo_mask(w))
        && (x <= u16_lo_mask(w) ==> (x & u16_lo_mask(w)) == x)) by (bit_vector)
        requires
            1 <= w,
            lo + w <= 16,
    ;
}

/// Writing one field leaves every field disjoint from it unchanged.
pub proof fn lemma_u16_field_disjoint(v: u16, lo1: u16, w1: u16, x: u16, lo2: u16, w2: u16)
    requires
        1 <= w1,
        lo1 + w1 <= 16,
        1 <= w2,
        lo2 + w2 <= 16,
        lo1 + w1 <= lo2 || lo2 + w2 <= lo1,
    ensures
        u16_get_field(u16_set_field(v, lo1, w1, x), lo2, w2) == u16_get_field(v, lo2, w2),
{
    assert(u16_get_field(u16_set_field(v, lo1, w1, x), lo2, w2) == u16_get_field(v, lo2, w2))
        by (bit_vector)
        requires
            1 <= w1,
            lo1 + w1 <= 16,
            1 <= w2,
            lo2 + w2 <= 16,
            lo1 + w1 <= lo2 || lo2 + w2 <= lo1,
    ;
}

/// Setting a bit and reading it back yields the bit that was written.
pub proof fn lemma_u16_bit_roundtrip(v: u16, b: u16, x: bool)
    requires
        b < 16,
    ensures
        u16_get_bit(u16_set_bit(v, b, x), b) == x,
{
    assert(u16_get_bit(u16_set_bit(v, b, true), b) && !u16_get_bit(u16_set_bit(v, b, false), b))
        by (bit_vector)
        requires
            b < 16,
    ;
}

/// Setting one bit leaves every other bit unchanged.
pub proof fn lemma_u16_bit_disjoint(v: u16, b: u16, x: bool, b2: u16)
    requires
        b < 16,
        b2 < 16,
        b != b2,
    ensures
        u16_get_bit(u16_set_bit(v, b, x), b2) == u16_get_bit(v, b2),
{
    lemma_u16_field_disjoint(v, b, 1, if x { 1 } else { 0 }, b2, 1);
}

/// Setting one bit leaves every field disjoint from it unchanged.
pub proof fn lemma_u16_bit_field_disjoint(v: u16, b: u16, x: bool, lo: u16, w: u16)
    requires
        b < 16,
        1 <= w,
        lo + w <= 16,
        b + 1 <= lo || lo + w <= b,
    ensures
        u16_get_field(u16_set_bit(v, b, x), lo, w) == u16_get_field(v, lo, w),
{
    lemma_u16_field_disjoint(v, b, 1, if x { 1 } else { 0 }, lo, w);
}

/// A field's value is bounded by its mask; in particular a one-bit field is
/// `0` or `1`.
pub proof fn lemma_u16_field_bounded(v: u16, lo: u16, w: u16)
    requires
        1 <= w,
        lo + w <= 16,
    ensures
        u16_get_field(v, lo, w) <= u16_lo_mask(w),
{
    assert(u16_get_field(v, lo, w) <= u16_lo_mask(w)) by (bit_vector)
        requires
            1 <= w,
            lo + w <= 16,
    ;
}

/// The mask with the low `w` bits set, for `1 <= w <= 32`.
pub open spec fn u32_lo_mask(w: u32) -> u32
    recommends
        1 <= w <= 32,
{
    0xFFFF_FFFFu32 >> ((32 - w) as u32)
}

/// The value of the field `[lo, lo + w)` of `v`, right-justified.
pub open spec fn u32_get_field(v: u32, lo: u32, w: u32) -> u32
    recommends
        1 <= w,
        lo + w <= 32,
{
    (v >> lo) & u32_lo_mask(w)
}

/// `v` with the field `[lo, lo + w)` replaced by the low `w` bits of `x`,
/// every other bit kept.
pub open spec fn u32_set_field(v: u32, lo: u32, w: u32, x: u32) -> u32
    recommends
        1 <= w,
        lo + w <= 32,
{
    (v & !(u32_lo_mask(w) << lo)) | ((x & u32_lo_mask(w)) << lo)
}

/// Extracts the field `[lo, lo + w)` of `v`, right-justified.
pub fn get_field32(v: u32, lo: u32, w: u32) -> (r: u32)
    requires
        1 <= w,
        lo + w <= 32,
    ensures
        r == u32_get_field(v, lo, w),
{
    (v >> lo) & (0xFFFF_FFFFu32 >> (32 - w))
}

/// Returns `v` with the field `[lo, lo + w)` replaced by the low `w` bits of
/// `x` and every other bit preserved.
pub fn set_field32(v: u32, lo: u32, w: u32, x: u32) -> (r: u32)
    requires
        1 <= w,
        lo + w <= 32,
    ensures
        r == u32_set_field(v, lo, w, x),
{
    let mask: u32 = 0xFFFF_FFFFu32 >> (32 - w);
    (v & !(mask << lo)) | ((x & mask) << lo)
}

/// Extracts the field `[lo, lo + w)` of `v`, right-justified.
pub fn get_field16(v: u16, lo: u16, w: u16) -> (r: u16)
    requires
        1 <= w,
        lo + w <= 16,
    ensures
        r == u16_get_field(v, lo, w),
{
    (v >> lo) & (0xFFFFu16 >> (16 - w))
}

/// Returns `v` with the field `[lo, lo + w)` replaced by the low `w` bits of
/// `x` and every other bit preserved.
pub fn set_field16(v: u16, lo: u16, w: u16, x: u16) -> (r: u16)
    requires
        1 <= w,
        lo + w <= 16,
    ensures
        r == u16_set_field(v, lo, w, x),
{
    let mask: u16 = 0xFFFFu16 >> (16 - w);
    (v & !(mask << lo)) | ((x & mask) << lo)
}

/// Whether bit `b` of `v` is set.
pub fn get_bit16(v: u16, b: u16) -> (r: bool)
    requires
        b < 16,
    ensures
        r == u16_get_bit(v, b),
{
    get_field16(v, b, 1) == 1
}

/// Returns `v` with bit `b` set to `x` and every other bit preserved.
pub fn set_bit16(v: u16, b: u16, x: bool) -> (r: u16)
    requires
        b < 16,
    ensures
        r == u16_set_bit(v, b, x),
{
    set_field16(v, b, 1, if x { 1 } else { 0 })
}

} // verus!
