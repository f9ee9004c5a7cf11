//! The descriptor record handed to the firmware's unpacking services.
//!
//! The firmware itself is reached by a fixed low-level calling convention
//! that only the device can execute; this module holds the typed data that
//! crosses that boundary. The descriptor's source length, source bit width,
//! destination bit width and offset-and-flags word fully determine the
//! firmware's transformation, so its layout must match the firmware
//! bit-exactly. The services validate nothing: the caller must hand them
//! well-formed descriptors and trusted source data.

use vstd::arithmetic::div_mod::{
    lemma_fundamental_div_mod, lemma_fundamental_div_mod_converse, lemma_multiply_divide_lt,
};
use vstd::arithmetic::mul::{lemma_mul_inequality, lemma_mul_is_distributive_sub_other_way,
    lemma_mul_nonnegative};
use vstd::arithmetic::power2::{lemma2_to64, lemma_pow2_adds, lemma_pow2_pos, lemma_pow2_unfold,
    pow2};
use vstd::prelude::*;

verus! {

/// The unpacking descriptor: how the firmware reads source units and widens
/// them into destination units.
#[derive(Clone, Copy, Debug, PartialEq, Eq, Structural)]
pub struct UnPackInfo {
    /// The number of source bytes to consume.
    pub src_len: u16,
    /// The width of one source unit, in bits.
    pub src_bit_width: u8,
    /// The width of one destination unit, in bits.
    pub dest_bit_width: u8,
    /// Bits 0 to 30 hold the amount added to each unit; bit 31 says whether
    /// the amount is added to zero units too.
    pub offset_and_flags: u32,
}

impl UnPackInfo {
    /// A descriptor from its four parts: `offset` must fit in 31 bits, and
    /// `zero_data` picks whether zero units get the offset too.
    pub fn new(src_len: u16, src_bit_width: u8, dest_bit_width: u8, offset: u32, zero_data: bool)
        -> (r: Self)
        requires
            offset < 0x8000_0000,
        ensures
            r.src_len == src_len,
            r.src_bit_width == src_bit_width,
            r.dest_bit_width == dest_bit_width,
            r.spec_offset() == offset,
            r.spec_zero_data() == zero_data,
    {
        let flags: u32 = if zero_data {
            offset + 0x8000_0000
        } else {
            offset
        };
        proof {
            assert(zero_data ==> (offset + 0x8000_0000u32) / 0x8000_0000 == 1 && (offset
                + 0x8000_0000u32) % 0x8000_0000 == offset);
        }
        UnPackInfo { src_len, src_bit_width, dest_bit_width, offset_and_flags: flags }
    }

    /// The amount the firmware adds to each unpacked unit.
    pub open spec fn spec_offset(self) -> int {
        (self.offset_and_flags % 0x8000_0000) as int
    }

    /// Whether the amount is added to zero units too.
    pub open spec fn spec_zero_data(self) -> bool {
        self.offset_and_flags / 0x8000_0000 == 1
    }

    /// The amount the firmware adds to each unpacked unit: the low 31 bits
    /// of the offset-and-flags word.
    pub fn offset(self) -> (r: u32)
        ensures
            r == self.spec_offset(),
    {
        self.offset_and_flags % 0x8000_0000
    }

    /// Whether the amount is added to zero units too: bit 31 of the
    /// offset-and-flags word.
    pub fn zero_data(self) -> (r: bool)
        ensures
            r == self.spec_zero_data(),
    {
        self.offset_and_flags / 0x8000_0000 == 1
    }
}

/// Whether the descriptor's widths are ones the unpacking transformation is
/// defined for: source units divide a byte, destination units divide a word.
pub open spec fn widths_ok(info: UnPackInfo) -> bool {
    &&& (info.src_bit_width == 1 || info.src_bit_width == 2 || info.src_bit_width == 4
        || info.src_bit_width == 8)
    &&& (info.dest_bit_width == 1 || info.dest_bit_width == 2 || info.dest_bit_width == 4
        || info.dest_bit_width == 8 || info.dest_bit_width == 16 || info.dest_bit_width == 32)
}

/// A descriptor the transformation is fully determined on: the widths are
/// legal, adding the amount cannot carry out of a destination unit, and the
/// source fills a whole number of destination words.
pub open spec fn descriptor_ok(info: UnPackInfo) -> bool {
    &&& widths_ok(info)
    &&& info.spec_offset() + pow2(info.src_bit_width as nat) <= pow2(info.dest_bit_width as nat)
    &&& unit_total(info) % (32int / info.dest_bit_width as int) == 0
}

/// The number of source units the source bytes hold.
pub open spec fn unit_total(info: UnPackInfo) -> int {
    info.src_len * (8int / info.src_bit_width as int)
}

/// Source unit `k` of `src` at width `sw`: units are read from each byte's
/// lowest bits upward, bytes in order.
pub open spec fn src_unit(src: Seq<u8>, sw: int, k: int) -> int {
    let upb = 8int / sw;
    ((src[k / upb] as int) / (pow2((sw * (k % upb)) as nat) as int)) % (pow2(sw as nat) as int)
}

/// The value the transformation writes for unit `k`: the amount is added to
/// every nonzero unit, and to zero units too when the flag says so.
pub open spec fn adjusted_unit(src: Seq<u8>, info: UnPackInfo, k: int) -> int {
    let u = src_unit(src, info.src_bit_width as int, k);
    if u != 0 || info.spec_zero_data() {
        u + info.spec_offset()
    } else {
        0
    }
}

/// The first `t` units starting at unit `base`, packed into one value with
/// each unit `dest_bit_width` bits above the one before it.
pub open spec fn packed_prefix(src: Seq<u8>, info: UnPackInfo, base: int, t: int) -> int
    decreases t,
{
    if t <= 0 {
        0
    } else {
        packed_prefix(src, info, base, t - 1) + adjusted_unit(src, info, base + t - 1) * pow2(
            (info.dest_bit_width * (t - 1)) as nat,
        )
    }
}

/// Destination word `j` of the transformation: the `32 / dest_bit_width`
/// units starting at unit `j * (32 / dest_bit_width)`, the first unit in the
/// lowest bits.
pub open spec fn dest_word(src: Seq<u8>, info: UnPackInfo, j: int) -> int {
    let upw = 32int / info.dest_bit_width as int;
    packed_prefix(src, info, j * upw, upw)
}

/// A legal source width fills a byte exactly and a legal destination width
/// fills a word exactly.
proof fn lemma_widths_divide(info: UnPackInfo)
    requires
        widths_ok(info),
    ensures
        info.src_bit_width * (8int / info.src_bit_width as int) == 8,
        1 <= 8int / info.src_bit_width as int <= 8,
        info.dest_bit_width * (32int / info.dest_bit_width as int) == 32,
        1 <= 32int / info.dest_bit_width as int <= 32,
{
}

/// Every adjusted unit of a well-formed descriptor is a `dest_bit_width`-bit
/// value.
proof fn lemma_adjusted_unit_bound(src: Seq<u8>, info: UnPackInfo, k: int)
    requires
        descriptor_ok(info),
        src.len() == info.src_len,
        0 <= k < unit_total(info),
    ensures
        0 <= adjusted_unit(src, info, k) < pow2(info.dest_bit_width as nat),
{
    let sw = info.src_bit_width as int;
    let upb = 8int / sw;
    lemma_widths_divide(info);
    lemma_multiply_divide_lt(k, upb, info.src_len as int);
    lemma_pow2_pos((sw * (k % upb)) as nat);
    lemma_pow2_pos(sw as nat);
    lemma_pow2_pos(info.dest_bit_width as nat);
}

/// Packing `t` units of `dest_bit_width` bits each stays under `2^(dw * t)`.
proof fn lemma_packed_prefix_bound(src: Seq<u8>, info: UnPackInfo, base: int, t: int)
    requires
        descriptor_ok(info),
        src.len() == info.src_len,
        0 <= base,
        0 <= t,
        base + t <= unit_total(info),
    ensures
        0 <= packed_prefix(src, info, base, t) < pow2((info.dest_bit_width * t) as nat),
    decreases t,
{
    let dw = info.dest_bit_width as int;
    if t == 0 {
        lemma_pow2_pos(0);
    } else {
        lemma_packed_prefix_bound(src, info, base, t - 1);
        lemma_adjusted_unit_bound(src, info, base + t - 1);
        let a = adjusted_unit(src, info, base + t - 1);
        let p = pow2((dw * (t - 1)) as nat);
        lemma_pow2_pos((dw * (t - 1)) as nat);
        lemma_mul_nonnegative(a, p as int);
        lemma_mul_inequality(a, pow2(dw as nat) - 1, p as int);
        lemma_mul_is_distributive_sub_other_way(p as int, pow2(dw as nat) as int, 1);
        lemma_pow2_adds((dw * (t - 1)) as nat, dw as nat);
        assert((dw * (t - 1) + dw) == dw * t) by (nonlinear_arith);
        assert(packed_prefix(src, info, base, t) <= p - 1 + (pow2(dw as nat) - 1) * p);
        assert((pow2(dw as nat) - 1) * p == pow2(dw as nat) * p - p);
        assert(pow2((dw * t) as nat) == p * pow2(dw as nat));
    }
}

/// Raises two to the power `e`.
fn pow2_u32(e: u32) -> (r: u32)
    requires
        e < 32,
    ensures
        r == pow2(e as nat),
{
    let mut r: u32 = 1;
    let mut i: u32 = 0;
    proof {
        lemma2_to64();
    }
    while i < e
        invariant
            i <= e,
            e < 32,
            r == pow2(i as nat),
        decreases e - i,
    {
        proof {
            lemma_pow2_unfold((i + 1) as nat);
            vstd::arithmetic::power2::lemma_pow2_strictly_increases((i + 1) as nat, 32);
            lemma2_to64();
        }
        r = r * 2;
        i = i + 1;
    }
    r
}

/// The bit-unpacking transformation the firmware's descriptor determines:
/// reads `src` as a stream of `src_bit_width`-bit units, adds the
/// descriptor's amount to each unit it applies to, and packs the results as
/// `dest_bit_width`-bit units into words, the first unit in the lowest bits.
/// The descriptor must be well-formed; the firmware validates nothing and
/// neither does this.
#[allow(non_snake_case)]
pub fn BitUnPack(src: &[u8], info: &UnPackInfo) -> (out: Vec<u32>)
    requires
        descriptor_ok(*info),
        src@.len() == info.src_len,
    ensures
        out@.len() == unit_total(*info) / (32int / info.dest_bit_width as int),
        forall|j: int| 0 <= j < out@.len() ==> out@[j] == dest_word(src@, *info, j),
{
    let sw: u32 = info.src_bit_width as u32;
    let dw: u32 = info.dest_bit_width as u32;
    let upb: u32 = 8 / sw;
    let upw: u32 = 32 / dw;
    let offset: u32 = info.offset();
    let zero_data: bool = info.zero_data();
    proof {
        lemma_widths_divide(*info);
    }

    // First pass: every source unit, adjusted.
    let mut vals: Vec<u32> = Vec::new();
    let src_len = src.len();
    let mut i: usize = 0;
    while i < src_len
        invariant
            descriptor_ok(*info),
            src@.len() == info.src_len,
            src_len == src@.len(),
            sw == info.src_bit_width,
            dw == info.dest_bit_width,
            upb == 8int / (sw as int),
            offset == info.spec_offset(),
            zero_data == info.spec_zero_data(),
            i <= src_len,
            vals@.len() == i * upb,
            forall|k: int| 0 <= k < vals@.len() ==> vals@[k] == adjusted_unit(src@, *info, k),
        decreases src_len - i,
    {
        let b: u32 = src[i] as u32;
        let mut t: u32 = 0;
        while t < upb
            invariant
                descriptor_ok(*info),
                src@.len() == info.src_len,
                src_len == src@.len(),
                sw == info.src_bit_width,
                dw == info.dest_bit_width,
                upb == 8int / (sw as int),
                offset == info.spec_offset(),
                zero_data == info.spec_zero_data(),
                i < src_len,
                b == src@[i as int],
                t <= upb,
                vals@.len() == i * upb + t,
                forall|k: int| 0 <= k < vals@.len() ==> vals@[k] == adjusted_unit(src@, *info, k),
            decreases upb - t,
        {
            proof {
                lemma_widths_divide(*info);
                assert(sw * t <= 8 - sw) by (nonlinear_arith)
                    requires
                        t <= upb - 1,
                        sw * (upb as int) == 8,
                        1 <= sw,
                ;
            }
            let e: u32 = sw * t;
            let p: u32 = pow2_u32(e);
            let psw: u32 = pow2_u32(sw);
            proof {
                lemma_pow2_pos(e as nat);
                lemma_pow2_pos(sw as nat);
                lemma2_to64();
                if dw < 32 {
                    vstd::arithmetic::power2::lemma_pow2_strictly_increases(dw as nat, 32);
                }
            }
            let u: u32 = (b / p) % psw;
            let v: u32 = if u != 0 || zero_data {
                u + offset
            } else {
                0
            };
            let ghost k = i * (upb as int) + t;
            proof {
                lemma_fundamental_div_mod_converse(k, upb as int, i as int, t as int);
                assert(u == src_unit(src@, sw as int, k));
                assert(v == adjusted_unit(src@, *info, k));
                assert((i * (upb as int) + t) + 1 == i * upb + (t + 1));
            }
            vals.push(v);
            t = t + 1;
        }
        proof {
            assert(i * (upb as int) + upb == (i + 1) * upb) by (nonlinear_arith);
        }
        i = i + 1;
    }

    // Second pass: pack the units into words, first unit lowest.
    let n_units = vals.len();
    let n_words = n_units / (upw as usize);
    proof {
        assert(vals@.len() == src_len * (upb as int));
        assert(n_units == unit_total(*info)) by {
            lemma_widths_divide(*info);
        }
        lemma_fundamental_div_mod(n_units as int, upw as int);
    }
    let mut out: Vec<u32> = Vec::new();
    let mut j: usize = 0;
    while j < n_words
        invariant
            descriptor_ok(*info),
            src@.len() == info.src_len,
            sw == info.src_bit_width,
            dw == info.dest_bit_width,
            upw == 32int / (dw as int),
            n_units == vals@.len(),
            n_units == unit_total(*info),
            n_units == n_words * upw,
            forall|k: int| 0 <= k < vals@.len() ==> vals@[k] == adjusted_unit(src@, *info, k),
            j <= n_words,
            out@.len() == j,
            forall|jj: int| 0 <= jj < j ==> out@[jj] == dest_word(src@, *info, jj),
        decreases n_words - j,
    {
        let ghost base = j * (upw as int);
        let mut acc: u32 = 0;
        let mut t: u32 = 0;
        proof {
            lemma_mul_nonnegative(j as int, upw as int);
            lemma_mul_inequality(j as int + 1, n_words as int, upw as int);
            assert((j + 1) * (upw as int) == j * (upw as int) + upw) by (nonlinear_arith);
        }
        while t < upw
            invariant
                descriptor_ok(*info),
                src@.len() == info.src_len,
                sw == info.src_bit_width,
                dw == info.dest_bit_width,
                upw == 32int / (dw as int),
                n_units == vals@.len(),
                n_units == unit_total(*info),
                base == j * (upw as int),
                0 <= base,
                base + upw <= n_units,
                forall|k: int| 0 <= k < vals@.len() ==> vals@[k] == adjusted_unit(src@, *info, k),
                j < n_words,
                t <= upw,
                acc == packed_prefix(src@, *info, base, t as int),
            decreases upw - t,
        {
            proof {
                lemma_widths_divide(*info);
                assert(dw * t <= 32 - dw) by (nonlinear_arith)
                    requires
                        t <= upw - 1,
                        dw * (upw as int) == 32,
                        1 <= dw,
                ;
            }
            let e: u32 = dw * t;
            let m: u32 = pow2_u32(e);
            let ghost k = base + t;
            proof {
                assert(vals@[k] == adjusted_unit(src@, *info, k));
                lemma_adjusted_unit_bound(src@, *info, k);
                lemma_packed_prefix_bound(src@, *info, base, t as int);
                lemma_pow2_pos(e as nat);
                lemma_pow2_pos(dw as nat);
            }
            let v: u32 = vals[j * (upw as usize) + t as usize];
            proof {
                // the next unit lands above everything packed so far
                lemma_mul_inequality(v as int, pow2(dw as nat) - 1, pow2(e as nat) as int);
                lemma_mul_is_distributive_sub_other_way(
                    pow2(e as nat) as int,
                    pow2(dw as nat) as int,
                    1,
                );
                lemma_pow2_adds(e as nat, dw as nat);
                assert(dw * t + dw == dw * (t + 1)) by (nonlinear_arith);
                lemma_mul_inequality(t as int + 1, upw as int, dw as int);
                if dw * (t + 1) < 32 {
                    vstd::arithmetic::power2::lemma_pow2_strictly_increases(
                        (dw * (t + 1)) as nat,
                        32,
                    );
                }
                lemma2_to64();
                assert(acc + v * pow2(e as nat) < pow2((dw * (t + 1)) as nat));
            }
            acc = acc + v * m;
            t = t + 1;
        }
        proof {
            assert(acc == dest_word(src@, *info, j as int));
        }
        out.push(acc);
        j = j + 1;
    }
    out
}

} // verus!
