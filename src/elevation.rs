use crate::raster::Raster;
use vstd::arithmetic::power2::*;
use vstd::prelude::*;

verus! {

/// Bit pattern of the lowest Swiss elevation, 193.0 m, as a 32-bit float.
pub const MIN_SWISS_HEIGHT_BITS: u32 = 0x4341_0000;

/// Bit pattern of the highest Swiss elevation, 4644.0 m, as a 32-bit float.
pub const MAX_SWISS_HEIGHT_BITS: u32 = 0x4591_2000;

/// Lowest Swiss elevation in meters.
pub const MIN_SWISS_HEIGHT: u64 = 193;

/// Highest Swiss elevation in meters.
pub const MAX_SWISS_HEIGHT: u64 = 4644;

/// Largest quantized sample.
pub const U16_TOP: u64 = 65535;

/// The sign bit of a float's bit pattern.
pub open spec fn is_negative(b: u32) -> bool {
    b >= 0x8000_0000
}

/// The biased exponent field of a float's bit pattern.
pub open spec fn exponent_of(b: u32) -> nat {
    ((b % 0x8000_0000) / 0x80_0000) as nat
}

/// The fraction field of a float's bit pattern.
pub open spec fn fraction_of(b: u32) -> nat {
    (b % 0x80_0000) as nat
}

pub open spec fn is_nan(b: u32) -> bool {
    exponent_of(b) == 255 && fraction_of(b) != 0
}

pub open spec fn is_infinite(b: u32) -> bool {
    exponent_of(b) == 255 && fraction_of(b) == 0
}

pub open spec fn is_finite(b: u32) -> bool {
    exponent_of(b) < 255
}

/// The integer significand, with the implicit leading bit for normal numbers.
pub open spec fn significand(b: u32) -> nat {
    if exponent_of(b) == 0 {
        fraction_of(b)
    } else {
        fraction_of(b) + 0x80_0000
    }
}

/// A finite float is `value_numerator(b) / 2^value_shift(b)`.
pub open spec fn value_shift(b: u32) -> nat {
    if exponent_of(b) >= 150 {
        0
    } else if exponent_of(b) == 0 {
        149
    } else {
        (150 - exponent_of(b)) as nat
    }
}

/// Numerator of a finite float's exact value over `2^value_shift(b)`.
pub open spec fn value_numerator(b: u32) -> int {
    let m: int = if exponent_of(b) >= 150 {
        (significand(b) * pow2((exponent_of(b) - 150) as nat)) as int
    } else {
        significand(b) as int
    };
    if is_negative(b) {
        -m
    } else {
        m
    }
}

/// The finite float `a` is at most the finite float `b`.
pub open spec fn value_le(a: u32, b: u32) -> bool {
    value_numerator(a) * pow2(value_shift(b)) <= value_numerator(b) * pow2(value_shift(a))
}

/// `floor((h - MIN) / ((MAX - MIN) / 65535))` for the exact value `h` of a finite float.
pub open spec fn height_index(b: u32) -> int {
    let p = pow2(value_shift(b));
    ((value_numerator(b) - MIN_SWISS_HEIGHT * p) * U16_TOP) / ((MAX_SWISS_HEIGHT
        - MIN_SWISS_HEIGHT) * p)
}

pub open spec fn clamp_u16(x: int) -> int {
    if x < 0 {
        0
    } else if x > U16_TOP {
        U16_TOP as int
    } else {
        x
    }
}

/// The quantized sample of an elevation: the height index clamped to the 16-bit
/// range; NaN and negative infinity give 0, positive infinity gives 65535.
pub open spec fn quantized_height(b: u32) -> u16 {
    if is_nan(b) {
        0
    } else if is_infinite(b) {
        if is_negative(b) {
            0
        } else {
            65535
        }
    } else {
        clamp_u16(height_index(b)) as u16
    }
}

proof fn lemma_floor_negative(num: int, den: int)
    requires
        num < 0,
        den > 0,
    ensures
        num / den < 0,
{
    vstd::arithmetic::div_mod::lemma_fundamental_div_mod(num, den);
    let q = num / den;
    let r = num % den;
    assert(q < 0) by (nonlinear_arith)
        requires
            num == den * q + r,
            0 <= r < den,
            num < 0,
            den > 0,
    ;
}

proof fn lemma_floor_at_least(num: int, den: int, k: int)
    requires
        num >= k * den,
        den > 0,
    ensures
        num / den >= k,
{
    vstd::arithmetic::div_mod::lemma_fundamental_div_mod(num, den);
    let q = num / den;
    let r = num % den;
    assert(q >= k) by (nonlinear_arith)
        requires
            num == den * q + r,
            0 <= r < den,
            num >= k * den,
            den > 0,
    ;
}

proof fn lemma_floor_monotonic(a: int, da: int, b: int, db: int)
    requires
        da > 0,
        db > 0,
        a * db <= b * da,
    ensures
        a / da <= b / db,
{
    vstd::arithmetic::div_mod::lemma_fundamental_div_mod(a, da);
    vstd::arithmetic::div_mod::lemma_fundamental_div_mod(b, db);
    let qa = a / da;
    let qb = b / db;
    let ra = a % da;
    let rb = b % db;
    assert(qa * da * db <= b * da) by (nonlinear_arith)
        requires
            a == da * qa + ra,
            0 <= ra,
            db > 0,
            a * db <= b * da,
    ;
    assert(qa * db <= b) by (nonlinear_arith)
        requires
            qa * da * db <= b * da,
            da > 0,
    ;
    assert(qa <= qb) by (nonlinear_arith)
        requires
            qa * db <= b,
            b == db * qb + rb,
            rb < db,
            db > 0,
    ;
}

/// Every non-negative finite float below 128 gives a negative height index.
proof fn lemma_small_is_below_range(b: u32)
    requires
        !is_negative(b),
        exponent_of(b) < 134,
    ensures
        height_index(b) < 0,
{
    let s = value_shift(b);
    lemma2_to64();
    if exponent_of(b) == 0 {
        lemma_pow2_strictly_increases(24, s);
    } else if s > 17 {
        lemma_pow2_strictly_increases(17, s);
    }
    let p = pow2(s);
    assert(p > 0);
    assert((value_numerator(b) - MIN_SWISS_HEIGHT * p) < 0);
    assert((value_numerator(b) - MIN_SWISS_HEIGHT * p) * U16_TOP < 0);
    lemma_floor_negative(
        (value_numerator(b) - MIN_SWISS_HEIGHT * p) * U16_TOP,
        (MAX_SWISS_HEIGHT - MIN_SWISS_HEIGHT) * p,
    );
}

/// Every negative finite float gives a negative height index.
proof fn lemma_negative_is_below_range(b: u32)
    requires
        is_negative(b),
        is_finite(b),
    ensures
        height_index(b) < 0,
{
    let s = value_shift(b);
    lemma_pow2_pos(s);
    if exponent_of(b) >= 150 {
        lemma_pow2_pos((exponent_of(b) - 150) as nat);
        assert(significand(b) * pow2((exponent_of(b) - 150) as nat) >= 0) by (nonlinear_arith)
            requires
                pow2((exponent_of(b) - 150) as nat) > 0,
        ;
    }
    let p = pow2(s);
    assert(value_numerator(b) <= 0);
    assert((value_numerator(b) - MIN_SWISS_HEIGHT * p) * U16_TOP < 0);
    lemma_floor_negative(
        (value_numerator(b) - MIN_SWISS_HEIGHT * p) * U16_TOP,
        (MAX_SWISS_HEIGHT - MIN_SWISS_HEIGHT) * p,
    );
}

/// Every finite float of at least 8192 gives a height index of at least 65535.
proof fn lemma_large_is_above_range(b: u32)
    requires
        !is_negative(b),
        is_finite(b),
        exponent_of(b) >= 140,
    ensures
        height_index(b) >= U16_TOP,
{
    let s = value_shift(b);
    let p = pow2(s);
    let span = MAX_SWISS_HEIGHT - MIN_SWISS_HEIGHT;
    lemma2_to64();
    if exponent_of(b) >= 150 {
        let e = (exponent_of(b) - 150) as nat;
        lemma_pow2_pos(e);
        assert(p == 1);
        assert(significand(b) * pow2(e) >= significand(b)) by (nonlinear_arith)
            requires
                pow2(e) > 0,
        ;
        assert(value_numerator(b) >= 0x80_0000);
    } else {
        if s < 10 {
            lemma_pow2_strictly_increases(s, 10);
        }
        assert(p <= 1024);
        assert(value_numerator(b) >= 0x80_0000);
    }
    lemma_pow2_pos(s);
    assert(span == 4451);
    assert(value_numerator(b) - 193 * p >= 4451 * p);
    assert(span * p > 0);
    assert((value_numerator(b) - MIN_SWISS_HEIGHT * p) * U16_TOP >= U16_TOP * (span * p))
        by (nonlinear_arith)
        requires
            value_numerator(b) - MIN_SWISS_HEIGHT * p >= span * p,
    ;
    lemma_floor_at_least(
        (value_numerator(b) - MIN_SWISS_HEIGHT * p) * U16_TOP,
        span * p,
        U16_TOP as int,
    );
}

proof fn lemma_height_index_monotonic(a: u32, b: u32)
    requires
        value_le(a, b),
    ensures
        height_index(a) <= height_index(b),
{
    let pa = pow2(value_shift(a));
    let pb = pow2(value_shift(b));
    lemma_pow2_pos(value_shift(a));
    lemma_pow2_pos(value_shift(b));
    let na = value_numerator(a);
    let nb = value_numerator(b);
    let xa = (na - 193 * pa) * 65535;
    let xb = (nb - 193 * pb) * 65535;
    let da: int = 4451 * pa as int;
    let db: int = 4451 * pb as int;
    assert(xa * db <= xb * da) by (nonlinear_arith)
        requires
            na * pb <= nb * pa,
            xa == (na - 193 * pa) * 65535,
            xb == (nb - 193 * pb) * 65535,
            da == 4451 * pa,
            db == 4451 * pb,
    ;
    lemma_floor_monotonic(xa, da, xb, db);
}

/// Quantization never decreases as the elevation grows: of two finite
/// elevations, the lower one never gets the larger sample.
pub proof fn law_quantization_monotonic(a: u32, b: u32)
    requires
        is_finite(a),
        is_finite(b),
        value_le(a, b),
    ensures
        quantized_height(a) <= quantized_height(b),
{
    lemma_height_index_monotonic(a, b);
}

/// The bounds of the Swiss range are the floats 193.0 and 4644.0, and they
/// are quantized to the ends of the 16-bit range, 0 and 65535.
pub proof fn law_swiss_range_ends()
    ensures
        value_numerator(MIN_SWISS_HEIGHT_BITS) == 193 * pow2(value_shift(MIN_SWISS_HEIGHT_BITS)),
        value_numerator(MAX_SWISS_HEIGHT_BITS) == 4644 * pow2(value_shift(MAX_SWISS_HEIGHT_BITS)),
        height_index(MIN_SWISS_HEIGHT_BITS) == 0,
        height_index(MAX_SWISS_HEIGHT_BITS) == 65535,
        quantized_height(MIN_SWISS_HEIGHT_BITS) == 0,
        quantized_height(MAX_SWISS_HEIGHT_BITS) == 65535,
{
    lemma2_to64();
    assert(exponent_of(MIN_SWISS_HEIGHT_BITS) == 134);
    assert(exponent_of(MAX_SWISS_HEIGHT_BITS) == 139);
    assert(pow2(value_shift(MIN_SWISS_HEIGHT_BITS)) == 65536);
    assert(pow2(value_shift(MAX_SWISS_HEIGHT_BITS)) == 2048);
    assert(value_numerator(MAX_SWISS_HEIGHT_BITS) == 9510912);
    vstd::arithmetic::div_mod::lemma_div_by_multiple(65535, 9115648);
}

/// Every finite elevation within the Swiss range is quantized without
/// clamping: its sample is the truncated quotient itself, within 0..=65535.
pub proof fn law_swiss_range_unclamped(b: u32)
    requires
        is_finite(b),
        value_le(MIN_SWISS_HEIGHT_BITS, b),
        value_le(b, MAX_SWISS_HEIGHT_BITS),
    ensures
        0 <= height_index(b) <= 65535,
        quantized_height(b) == height_index(b),
{
    law_swiss_range_ends();
    lemma_height_index_monotonic(MIN_SWISS_HEIGHT_BITS, b);
    lemma_height_index_monotonic(b, MAX_SWISS_HEIGHT_BITS);
}

/// `2^e`, for the small shifts the quantizer needs.
fn pow2_u64(e: u32) -> (r: u64)
    requires
        e <= 32,
    ensures
        r == pow2(e as nat),
{
    let mut r: u64 = 1;
    let mut i: u32 = 0;
    proof {
        lemma2_to64();
    }
    while i < e
        invariant
            i <= e,
            e <= 32,
            r == pow2(i as nat),
        decreases e - i,
    {
        proof {
            lemma_pow2_unfold((i + 1) as nat);
            lemma2_to64();
            if i + 1 < 32 {
                lemma_pow2_strictly_increases((i + 1) as nat, 32);
            }
        }
        r = r * 2;
        i = i + 1;
    }
    r
}

/// Quantizes one elevation sample, given as the bit pattern of a 32-bit float,
/// onto the 16-bit range: 193 m gives 0 and 4644 m gives 65535, with the exact
/// quotient truncated; values outside the range are clamped to its ends.
pub fn swiss_f32_to_u16(height_bits: u32) -> (r: u16)
    ensures
        r == quantized_height(height_bits),
{
    let negative = height_bits >= 0x8000_0000;
    let exponent: u32 = (height_bits % 0x8000_0000) / 0x80_0000;
    let fraction: u32 = height_bits % 0x80_0000;
    if exponent == 255 {
        if fraction != 0 || negative {
            return 0;
        }
        return 65535;
    }
    if negative {
        proof {
            lemma_negative_is_below_range(height_bits);
        }
        return 0;
    }
    if exponent < 134 {
        proof {
            lemma_small_is_below_range(height_bits);
        }
        return 0;
    }
    if exponent >= 140 {
        proof {
            lemma_large_is_above_range(height_bits);
        }
        return 65535;
    }
    let shift: u32 = 150 - exponent;
    let p = pow2_u64(shift);
    proof {
        lemma2_to64();
        lemma_pow2_strictly_increases(shift as nat, 17);
    }
    let sig: u64 = fraction as u64 + 0x80_0000;
    assert(sig == value_numerator(height_bits));
    if sig < MIN_SWISS_HEIGHT * p {
        proof {
            lemma_floor_negative(
                (sig - MIN_SWISS_HEIGHT * p) * U16_TOP,
                (MAX_SWISS_HEIGHT - MIN_SWISS_HEIGHT) * p,
            );
        }
        return 0;
    }
    let index: u64 = (sig - MIN_SWISS_HEIGHT * p) * U16_TOP / ((MAX_SWISS_HEIGHT
        - MIN_SWISS_HEIGHT) * p);
    if index > U16_TOP {
        65535
    } else {
        index as u16
    }
}

/// The quantized samples of a buffer of elevation samples, index by index.
pub open spec fn quantized_samples(s: Seq<u32>) -> Seq<u16> {
    s.map_values(|b: u32| quantized_height(b))
}

/// Quantizes every sample of a buffer, keeping their order.
pub fn quantize_samples(samples: &Vec<u32>) -> (r: Vec<u16>)
    ensures
        r@ == quantized_samples(samples@),
{
    let mut out: Vec<u16> = Vec::new();
    let mut i: usize = 0;
    while i < samples.len()
        invariant
            i <= samples@.len(),
            out@ == quantized_samples(samples@.take(i as int)),
        decreases samples@.len() - i,
    {
        out.push(swiss_f32_to_u16(samples[i]));
        assert(samples@.take(i + 1) =~= samples@.take(i as int).push(samples@[i as int]));
        i = i + 1;
    }
    assert(samples@.take(i as int) =~= samples@);
    out
}

/// Quantizes an elevation raster into a 16-bit raster of the same dimensions.
pub fn quantize_raster(src: &Raster<u32>) -> (r: Raster<u16>)
    ensures
        r.width == src.width,
        r.height == src.height,
        r.samples@ == quantized_samples(src.samples@),
        src.holds_pixels(1) ==> r.holds_pixels(1),
{
    let samples = quantize_samples(&src.samples);
    Raster { width: src.width, height: src.height, samples }
}

/// Quantization has no hidden state: equal elevation buffers give equal
/// quantized buffers, of the same length, on every run.
pub proof fn law_quantization_deterministic(a: Seq<u32>, b: Seq<u32>)
    requires
        a == b,
    ensures
        quantized_samples(a) == quantized_samples(b),
        quantized_samples(a).len() == a.len(),
{
}

} // verus!
