//! Fixed-point audio samples.
//!
//! Captured audio is held as integers rather than floating-point values so
//! that every numeric step of the pipeline has an exact meaning. A sample
//! value `v` stands for the real amplitude `v / SAMPLE_SCALE`. The scale is
//! the product of the two integer-encoding denominators (32767 for signed
//! 16-bit input, 65535 for unsigned 16-bit input), so both native integer
//! encodings convert to this representation without rounding. The host layer
//! converts native 32-bit float chunks at the boundary.

use vstd::arithmetic::div_mod::{
    lemma_fundamental_div_mod, lemma_fundamental_div_mod_converse, lemma_mod_bound,
    lemma_mod_pos_bound,
};
use vstd::arithmetic::div_mod::lemma_div_nonincreasing;
use vstd::prelude::*;

verus! {

/// Fixed-point value standing for full scale (amplitude 1.0):
/// the least common multiple of the signed and unsigned 16-bit denominators.
pub const SAMPLE_SCALE: i32 = 32767 * 65535;

/// Largest sample magnitude the pipeline admits. A signed 16-bit sample of
/// -32768 normalizes to slightly below -1.0 (it is divided by 32767), so the
/// bound sits one signed step above full scale.
pub const SAMPLE_BOUND: i32 = 32768 * 65535;

/// A sample within the admitted amplitude range.
pub open spec fn valid_sample(v: i32) -> bool {
    -(SAMPLE_BOUND as int) <= v as int <= SAMPLE_BOUND as int
}

/// Every sample of the sequence is within the admitted amplitude range.
pub open spec fn all_valid(s: Seq<i32>) -> bool {
    forall|i: int| 0 <= i < s.len() ==> valid_sample(#[trigger] s[i])
}

/// Normalizes a signed 16-bit sample: the amplitude `v / 32767` expressed
/// at `SAMPLE_SCALE`, exactly.
pub fn sample_from_i16(v: i16) -> (s: i32)
    ensures
        s as int == v as int * 65535,
        valid_sample(s),
{
    proof {
        assert(-32768 * 65535 <= v as int * 65535 <= 32767 * 65535) by (nonlinear_arith)
            requires
                -32768 <= v as int <= 32767,
        ;
    }
    (v as i32) * 65535
}

/// Normalizes an unsigned 16-bit sample: the amplitude `(2v - 65535) / 65535`
/// (zero amplitude sits at mid-range) expressed at `SAMPLE_SCALE`, exactly.
pub fn sample_from_u16(v: u16) -> (s: i32)
    ensures
        s as int == (2 * v as int - 65535) * 32767,
        valid_sample(s),
{
    let centered: i32 = 2 * (v as i32) - 65535;
    proof {
        assert(-65535 * 32767 <= centered as int * 32767 <= 65535 * 32767) by (nonlinear_arith)
            requires
                -65535 <= centered as int <= 65535,
        ;
    }
    centered * 32767
}

/// Sum of the `count` samples starting at `start`.
pub open spec fn frame_sum(s: Seq<i32>, start: int, count: int) -> int
    decreases count,
{
    if count <= 0 {
        0
    } else {
        s[start] + frame_sum(s, start + 1, count - 1)
    }
}

/// The mono value of frame `i`: the arithmetic mean of its `channels`
/// interleaved samples (integer division, rounding toward negative infinity).
pub open spec fn mono_sample(s: Seq<i32>, channels: int, i: int) -> int {
    frame_sum(s, i * channels, channels) / channels
}

/// The mono mix-down of an interleaved sequence: one averaged sample per
/// complete frame.
pub open spec fn mono_mix(s: Seq<i32>, channels: int) -> Seq<i32> {
    Seq::new((s.len() as int / channels) as nat, |i: int| mono_sample(s, channels, i) as i32)
}

/// Quotient of `a` by the positive `b`, rounded toward negative infinity,
/// matching division on `int`.
fn div_floor_i64(a: i64, b: i64) -> (q: i64)
    requires
        1 <= b,
        -i64::MAX <= a,
    ensures
        q as int == a as int / b as int,
{
    if a >= 0 {
        let q = (a as u64) / (b as u64);
        q as i64
    } else {
        let m = (-a) as u64;
        let qm = m / (b as u64);
        let rm = m % (b as u64);
        proof {
            lemma_fundamental_div_mod(m as int, b as int);
            lemma_mod_pos_bound(m as int, b as int);
            lemma_div_nonincreasing(m as int, b as int);
            if rm == 0 {
                assert(a as int == (-(qm as int)) * b as int + 0) by (nonlinear_arith)
                    requires
                        m as int == b as int * qm as int + rm as int,
                        rm as int == 0,
                        a as int == -(m as int),
                ;
                lemma_fundamental_div_mod_converse(a as int, b as int, -(qm as int), 0);
            } else {
                assert(a as int == (-(qm as int) - 1) * b as int + (b as int - rm as int))
                    by (nonlinear_arith)
                    requires
                        m as int == b as int * qm as int + rm as int,
                        a as int == -(m as int),
                ;
                lemma_fundamental_div_mod_converse(
                    a as int,
                    b as int,
                    -(qm as int) - 1,
                    b as int - rm as int,
                );
            }
        }
        if rm == 0 {
            -(qm as i64)
        } else {
            -(qm as i64) - 1
        }
    }
}

/// Mixes interleaved multi-channel samples down to one channel by averaging
/// each frame. The output holds one sample per complete input frame; a
/// trailing partial frame is dropped.
pub fn to_mono(samples: &Vec<i32>, channels: usize) -> (out: Vec<i32>)
    requires
        1 <= channels <= 65535,
        all_valid(samples@),
    ensures
        out@.len() == samples@.len() as int / channels as int,
        forall|i: int|
            0 <= i < out@.len() ==> out@[i] as int == mono_sample(samples@, channels as int, i),
        out@ == mono_mix(samples@, channels as int),
        all_valid(out@),
{
    let frames: usize = samples.len() / channels;
    let mut out: Vec<i32> = Vec::new();
    let mut f: usize = 0;
    proof {
        lemma_fundamental_div_mod(samples@.len() as int, channels as int);
        lemma_mod_pos_bound(samples@.len() as int, channels as int);
        assert(frames as int * channels as int <= samples@.len() as int) by (nonlinear_arith)
            requires
                samples@.len() as int == channels as int * (frames as int) + (
                samples@.len() as int % channels as int),
                samples@.len() as int % channels as int >= 0,
        ;
    }
    while f < frames
        invariant
            samples@.len() <= usize::MAX,
            frames as int == samples@.len() as int / channels as int,
            frames as int * channels as int <= samples@.len() as int,
            1 <= channels <= 65535,
            all_valid(samples@),
            out@.len() == f,
            f <= frames,
            forall|i: int|
                0 <= i < f ==> out@[i] as int == mono_sample(samples@, channels as int, i),
            all_valid(out@),
        decreases frames - f,
    {
        proof {
            assert(f as int * channels as int + channels as int <= frames as int
                * channels as int) by (nonlinear_arith)
                requires
                    f as int + 1 <= frames as int,
                    0 <= channels as int,
            ;
        }
        let base: usize = f * channels;
        let mut sum: i64 = 0;
        let mut k: usize = 0;
        while k < channels
            invariant
                samples@.len() <= usize::MAX,
                1 <= channels <= 65535,
                all_valid(samples@),
                base as int == f as int * channels as int,
                base + channels <= samples@.len(),
                k <= channels,
                sum as int == frame_sum(samples@, base as int, k as int),
                -(k as int * (SAMPLE_BOUND as int)) <= sum as int <= k as int * (
                SAMPLE_BOUND as int),
            decreases channels - k,
        {
            proof {
                lemma_frame_sum_extend(samples@, base as int, k as int);
                assert((k as int + 1) * (SAMPLE_BOUND as int) <= 65535 * (SAMPLE_BOUND as int)
                    && (k as int + 1) * (SAMPLE_BOUND as int) == k as int * (SAMPLE_BOUND as int)
                    + SAMPLE_BOUND as int) by (nonlinear_arith)
                    requires
                        k as int + 1 <= 65535,
                ;
            }
            sum = sum + samples[base + k] as i64;
            k = k + 1;
        }
        let mono = div_floor_i64(sum, channels as i64);
        proof {
            lemma_div_floor_bounds(sum as int, channels as int, SAMPLE_BOUND as int);
        }
        out.push(mono as i32);
        f = f + 1;
    }
    proof {
        assert(out@ =~= mono_mix(samples@, channels as int));
    }
    out
}

/// Appending one more sample extends the frame sum by that sample.
proof fn lemma_frame_sum_extend(s: Seq<i32>, start: int, k: int)
    requires
        0 <= k,
        0 <= start,
        start + k < s.len(),
    ensures
        frame_sum(s, start, k + 1) == frame_sum(s, start, k) + s[start + k],
    decreases k,
{
    reveal_with_fuel(frame_sum, 2);
    if k > 0 {
        lemma_frame_sum_extend(s, start + 1, k - 1);
    }
}

/// Sum of the squares of all samples.
pub open spec fn sum_squares(s: Seq<i32>) -> int
    decreases s.len(),
{
    if s.len() == 0 {
        0
    } else {
        sum_squares(s.drop_last()) + s.last() * s.last()
    }
}

/// The capture counts as too quiet when its root-mean-square amplitude is
/// strictly below one one-thousandth of full scale; squaring both sides,
/// the mean of the squared samples must be below `SAMPLE_SCALE**2 / 10**6`.
pub open spec fn too_quiet(s: Seq<i32>) -> bool {
    sum_squares(s) * 1000000 < s.len() * ((SAMPLE_SCALE as int) * (SAMPLE_SCALE as int))
}

/// Sums the squared samples exactly.
fn sum_of_squares(samples: &Vec<i32>) -> (t: u128)
    requires
        all_valid(samples@),
    ensures
        t as int == sum_squares(samples@),
        t as int <= samples@.len() as int * ((SAMPLE_BOUND as int) * (SAMPLE_BOUND as int)),
{
    let mut t: u128 = 0;
    let mut i: usize = 0;
    while i < samples.len()
        invariant
            all_valid(samples@),
            i <= samples@.len(),
            t as int == sum_squares(samples@.take(i as int)),
            t as int <= i as int * ((SAMPLE_BOUND as int) * (SAMPLE_BOUND as int)),
        decreases samples@.len() - i,
    {
        let v = samples[i];
        proof {
            let b = SAMPLE_BOUND as int;
            assert(0 <= v as int * v as int <= b * b) by (nonlinear_arith)
                requires
                    -b <= v as int <= b,
            ;
            assert(0x10000000000000000 * ((2147450880 as int) * (2147450880 as int))
                < 0x100000000000000000000000000000000) by (nonlinear_arith);
            assert(samples@.take(i + 1).drop_last() =~= samples@.take(i as int));
            assert(samples@.take(i + 1).last() == samples@[i as int]);
            assert((i as int + 1) * (b * b) == i as int * (b * b) + b * b) by (nonlinear_arith);
            assert(samples@.len() as int * (b * b) <= 0x10000000000000000 * (b * b))
                by (nonlinear_arith)
                requires
                    samples@.len() as int <= 0x10000000000000000,
                    0 <= b * b,
            ;
            assert((i as int + 1) * (b * b) <= samples@.len() as int * (b * b))
                by (nonlinear_arith)
                requires
                    i as int + 1 <= samples@.len() as int,
                    0 <= b * b,
            ;
        }
        let sq: i64 = (v as i64) * (v as i64);
        t = t + (sq as u128);
        i = i + 1;
    }
    proof {
        assert(samples@.take(samples@.len() as int) =~= samples@);
    }
    t
}

/// Largest value of `ss * 1000000` that fits the unsigned 128-bit range,
/// used to dismiss absurdly loud sums without overflowing.
const QUIET_PRODUCT_CAP: u128 = 340282366920938463463374607431768;

/// Decides the quietness predicate exactly.
pub fn is_too_quiet(samples: &Vec<i32>) -> (r: bool)
    requires
        all_valid(samples@),
    ensures
        r == too_quiet(samples@),
{
    let n = samples.len();
    let ss = sum_of_squares(samples);
    let scale_sq: u128 = (SAMPLE_SCALE as u128) * (SAMPLE_SCALE as u128);
    proof {
        let s2 = (SAMPLE_SCALE as int) * (SAMPLE_SCALE as int);
        assert(n as int * s2 <= 0x10000000000000000 * s2) by (nonlinear_arith)
            requires
                n as int <= 0x10000000000000000,
                0 <= s2,
        ;
        assert(0x10000000000000000 * ((2147385345 as int) * (2147385345 as int))
            < (340282366920938463463374607431768 as int + 1) * 1000000) by (nonlinear_arith);
        assert((340282366920938463463374607431768 as int) * 1000000
            <= 0xffffffffffffffffffffffffffffffff as int) by (nonlinear_arith);
    }
    let rhs: u128 = (n as u128) * scale_sq;
    if ss > QUIET_PRODUCT_CAP {
        proof {
            assert(ss as int * 1000000 >= (QUIET_PRODUCT_CAP as int + 1) * 1000000)
                by (nonlinear_arith)
                requires
                    ss as int >= QUIET_PRODUCT_CAP as int + 1,
            ;
        }
        false
    } else {
        proof {
            assert(ss as int * 1000000 <= QUIET_PRODUCT_CAP as int * 1000000) by (nonlinear_arith)
                requires
                    ss as int <= QUIET_PRODUCT_CAP as int,
            ;
        }
        ss * 1000000 < rhs
    }
}

/// The integer square root: the largest `r` with `r * r <= x`.
pub open spec fn spec_isqrt(x: int) -> int
    decreases x,
{
    if x <= 0 {
        0
    } else {
        let r = spec_isqrt(x - 1);
        if (r + 1) * (r + 1) <= x {
            r + 1
        } else {
            r
        }
    }
}

/// The integer square root is characterized by its bracketing property.
proof fn lemma_isqrt_bounds(x: int)
    requires
        0 <= x,
    ensures
        0 <= spec_isqrt(x),
        spec_isqrt(x) * spec_isqrt(x) <= x,
        x < (spec_isqrt(x) + 1) * (spec_isqrt(x) + 1),
    decreases x,
{
    if x > 0 {
        lemma_isqrt_bounds(x - 1);
        let r = spec_isqrt(x - 1);
        if (r + 1) * (r + 1) <= x {
            assert(x < ((r + 1) + 1) * ((r + 1) + 1)) by (nonlinear_arith)
                requires
                    0 <= r,
                    x - 1 < (r + 1) * (r + 1),
            ;
        }
    }
}

/// Any value bracketed by consecutive squares is the integer square root.
proof fn lemma_isqrt_unique(x: int, r: int)
    requires
        0 <= x,
        0 <= r,
        r * r <= x,
        x < (r + 1) * (r + 1),
    ensures
        r == spec_isqrt(x),
{
    lemma_isqrt_bounds(x);
    let s = spec_isqrt(x);
    if r < s {
        assert((r + 1) * (r + 1) <= s * s) by (nonlinear_arith)
            requires
                0 <= r,
                r + 1 <= s,
        ;
    }
    if s < r {
        assert((s + 1) * (s + 1) <= r * r) by (nonlinear_arith)
            requires
                0 <= s,
                s + 1 <= r,
        ;
    }
}

/// Computes the integer square root by bisection.
pub fn isqrt_u64(x: u64) -> (r: u64)
    ensures
        r as int == spec_isqrt(x as int),
{
    let mut lo: u64 = 0;
    let mut hi: u64 = 4294967295;
    proof {
        assert((x as int) < (hi as int + 1) * (hi as int + 1)) by (nonlinear_arith)
            requires
                hi as int == 4294967295,
                x as int <= 0xffffffffffffffff,
        ;
    }
    while lo < hi
        invariant
            lo <= hi,
            hi <= 4294967295,
            lo as int * lo as int <= x as int,
            (x as int) < (hi as int + 1) * (hi as int + 1),
        decreases hi - lo,
    {
        let mid: u64 = lo + (hi - lo + 1) / 2;
        proof {
            assert(mid as int * mid as int <= 4294967295 * 4294967295) by (nonlinear_arith)
                requires
                    0 <= mid as int <= 4294967295,
            ;
        }
        let sq: u64 = mid * mid;
        if sq <= x {
            lo = mid;
        } else {
            hi = mid - 1;
        }
    }
    proof {
        lemma_isqrt_unique(x as int, lo as int);
    }
    lo
}

/// The root-mean-square amplitude in millionths of full scale, for
/// diagnostics. The mean square is rounded down before the square root,
/// as is the final rescaling.
pub open spec fn rms_micro_spec(s: Seq<i32>) -> int {
    if s.len() == 0 {
        0
    } else {
        spec_isqrt(sum_squares(s) / s.len() as int) * 1000000 / (SAMPLE_SCALE as int)
    }
}

/// Measures the root-mean-square amplitude in millionths of full scale.
pub fn rms_micro(samples: &Vec<i32>) -> (r: u64)
    requires
        all_valid(samples@),
    ensures
        r as int == rms_micro_spec(samples@),
{
    if samples.len() == 0 {
        return 0;
    }
    let ss = sum_of_squares(samples);
    let len = samples.len() as u128;
    let mean = ss / len;
    proof {
        let b2 = (SAMPLE_BOUND as int) * (SAMPLE_BOUND as int);
        let l = samples@.len() as int;
        vstd::arithmetic::div_mod::lemma_div_is_ordered(ss as int, l * b2, l);
        vstd::arithmetic::div_mod::lemma_div_multiples_vanish(b2, l);
        assert(mean as int <= b2);
        assert((2147450880 as int) * (2147450880 as int) < 0x10000000000000000)
            by (nonlinear_arith);
        assert(b2 == (2147450880 as int) * (2147450880 as int));
    }
    let root = isqrt_u64(mean as u64);
    proof {
        lemma_isqrt_bounds(mean as int);
        assert(root as int <= 4294967296) by (nonlinear_arith)
            requires
                root as int * root as int <= mean as int,
                (mean as int) < 0x10000000000000000,
                0 <= root as int,
        ;
        assert(root as int * 1000000 <= 4294967296 * 1000000) by (nonlinear_arith)
            requires
                root as int <= 4294967296,
        ;
    }
    (root * 1000000) / (SAMPLE_SCALE as u64)
}

/// A mean of values within a symmetric bound stays within that bound.
proof fn lemma_div_floor_bounds(sum: int, channels: int, bound: int)
    requires
        1 <= channels,
        0 <= bound,
        -(channels * bound) <= sum <= channels * bound,
    ensures
        -bound <= sum / channels <= bound,
{
    lemma_fundamental_div_mod(sum, channels);
    lemma_mod_bound(sum, channels);
    let q = sum / channels;
    let r = sum % channels;
    assert(-bound <= q <= bound) by (nonlinear_arith)
        requires
            sum == channels * q + r,
            0 <= r < channels,
            1 <= channels,
            0 <= bound,
            -(channels * bound) <= sum <= channels * bound,
    ;
}

} // verus!
