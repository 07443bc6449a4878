//! Quantization of single-precision audio samples to 16-bit PCM.
//!
//! A sample travels through this library as the IEEE-754 binary32 bit pattern
//! of its value (what `f32::to_bits` gives). The quantizer clamps the value
//! to [-1, 1], multiplies it by 32767 as single-precision arithmetic does
//! (one rounding to nearest, ties to even) and drops the fractional part.
//! Everything is stated and computed over the integer fields of the pattern.

use vstd::arithmetic::div_mod::*;
use vstd::arithmetic::power2::*;
use vstd::bits::*;
use vstd::prelude::*;

verus! {

/// The magnitude of a full-scale sample, and the factor samples are scaled by.
pub const FULL_SCALE: i16 = 32767;

/// Bit patterns with this exponent field or a larger one have magnitude
/// at least one (or are not numbers).
pub const UNIT_EXPONENT: u32 = 127;

/// Bit patterns with a smaller exponent field have magnitude below `2^-16`
/// and quantize to zero.
pub const LEAST_EXPONENT: u32 = 111;

/// The sign bit of the pattern.
pub open spec fn is_negative(bits: u32) -> bool {
    bits >= 0x8000_0000
}

/// The eight-bit biased exponent field.
pub open spec fn exponent_field(bits: u32) -> nat {
    (bits as nat / 0x80_0000) % 256
}

/// The 23-bit fraction field.
pub open spec fn fraction_field(bits: u32) -> nat {
    bits as nat % 0x80_0000
}

/// Whether the pattern is a NaN.
pub open spec fn is_nan(bits: u32) -> bool {
    exponent_field(bits) == 255 && fraction_field(bits) != 0
}

/// The integer significand of a finite pattern: its magnitude is
/// `significand(bits) * 2^binary_exponent(bits)`.
pub open spec fn significand(bits: u32) -> nat {
    if exponent_field(bits) == 0 {
        fraction_field(bits)
    } else {
        0x80_0000 + fraction_field(bits)
    }
}

/// The power of two that the significand of a finite pattern is scaled by.
pub open spec fn binary_exponent(bits: u32) -> int {
    if exponent_field(bits) == 0 {
        -149
    } else {
        exponent_field(bits) - 150
    }
}

/// The number of binary digits of `n`.
pub open spec fn bit_length(n: nat) -> nat
    decreases n,
{
    if n == 0 {
        0
    } else {
        1 + bit_length(n / 2)
    }
}

/// How many low bits a significand of value `n` loses when it is rounded to
/// the 24 bits that single precision keeps.
pub open spec fn excess_bits(n: nat) -> nat {
    if bit_length(n) > 24 {
        (bit_length(n) - 24) as nat
    } else {
        0
    }
}

/// `n / d` rounded to the nearest integer, a tie going to the even one.
pub open spec fn div_round_half_even(n: nat, d: nat) -> nat {
    let q = n / d;
    let r = n % d;
    if 2 * r < d || (2 * r == d && q % 2 == 0) {
        q
    } else {
        q + 1
    }
}

/// The integer part of `m * 2^e`.
pub open spec fn floor_scaled(m: nat, e: int) -> nat {
    if e >= 0 {
        m * pow2(e as nat)
    } else {
        m / pow2((-e) as nat)
    }
}

/// The integer part of the single-precision product of the magnitude of a
/// finite pattern and 32767. The exact product is
/// `32767 * significand * 2^binary_exponent`; single precision keeps 24 bits
/// of its significand, rounded to nearest with ties to even.
pub open spec fn scaled_magnitude(bits: u32) -> nat {
    let exact = 32767 * significand(bits);
    let excess = excess_bits(exact);
    let rounded = div_round_half_even(exact, pow2(excess));
    floor_scaled(rounded, binary_exponent(bits) + excess)
}

/// The 16-bit PCM value of a sample: zero for a NaN, plus or minus 32767
/// for every magnitude of one or more (infinities included), and otherwise
/// the scaled magnitude with the sample's sign.
pub open spec fn quantized(bits: u32) -> int {
    if is_nan(bits) {
        0
    } else if exponent_field(bits) >= 127 {
        if is_negative(bits) {
            -32767
        } else {
            32767
        }
    } else if is_negative(bits) {
        -(scaled_magnitude(bits) as int)
    } else {
        scaled_magnitude(bits) as int
    }
}

/// A number below `2^k` has at most `k` binary digits, and every number is
/// below two to the power of its digit count.
proof fn lemma_bit_length_bounds(n: nat, k: nat)
    ensures
        n < pow2(bit_length(n)),
        n < pow2(k) ==> bit_length(n) <= k,
        n >= pow2(k) ==> bit_length(n) > k,
    decreases n,
{
    lemma2_to64();
    lemma_pow2_pos(k);
    if n != 0 {
        lemma_pow2_unfold(bit_length(n));
        if k == 0 {
            lemma_bit_length_bounds(n / 2, 0);
        } else {
            lemma_pow2_unfold(k);
            lemma_bit_length_bounds(n / 2, (k - 1) as nat);
        }
    }
}

/// Rounding to 24 significant bits leaves at most `2^24`.
proof fn lemma_rounded_bound(n: nat)
    ensures
        div_round_half_even(n, pow2(excess_bits(n))) <= 0x100_0000,
{
    let excess = excess_bits(n);
    let unit = pow2(excess);
    lemma2_to64();
    lemma_pow2_pos(excess);
    lemma_bit_length_bounds(n, 24);
    if bit_length(n) > 24 {
        lemma_pow2_adds(24, excess);
    }
    assert(n < 0x100_0000 * unit) by (nonlinear_arith)
        requires
            n < pow2(bit_length(n)),
            bit_length(n) > 24 ==> pow2(bit_length(n)) == 0x100_0000 * unit,
            bit_length(n) <= 24 ==> unit == 1 && n < 0x100_0000,
    ;
    lemma_fundamental_div_mod(n as int, unit as int);
    assert(n / unit < 0x100_0000) by (nonlinear_arith)
        requires
            n < 0x100_0000 * unit,
            n == unit * (n / unit) + n % unit,
            0 <= n % unit,
            unit > 0,
    ;
}

/// A magnitude below `2^-16` scales to less than one half and quantizes to
/// zero.
pub proof fn lemma_tiny_magnitude(bits: u32)
    requires
        exponent_field(bits) < 111,
    ensures
        scaled_magnitude(bits) == 0,
{
    let exact = 32767 * significand(bits);
    let excess = excess_bits(exact);
    let rounded = div_round_half_even(exact, pow2(excess));
    let drop = (-(binary_exponent(bits) + excess)) as nat;
    lemma2_to64();
    lemma2_to64_rest();
    assert(exact < pow2(39));
    lemma_bit_length_bounds(exact, 39);
    lemma_rounded_bound(exact);
    assert(drop >= 25);
    if drop > 25 {
        lemma_pow2_strictly_increases(25, drop);
    }
    lemma_basic_div(rounded as int, pow2(drop) as int);
}

/// The integer part of the exact product of the magnitude of a finite
/// pattern below one and 32767.
pub open spec fn exact_scaled_floor(bits: u32) -> nat {
    (32767 * significand(bits)) / pow2((-binary_exponent(bits)) as nat)
}

/// Rounding moves the scaled magnitude by one at most, and never down: it is
/// the integer part of the exact product, or one more where single
/// precision rounds the product up to the next integer.
pub proof fn lemma_scaled_magnitude_near_exact(bits: u32)
    requires
        exponent_field(bits) <= 126,
    ensures
        exact_scaled_floor(bits) <= scaled_magnitude(bits) <= exact_scaled_floor(bits) + 1,
{
    let exact = 32767 * significand(bits);
    let excess = excess_bits(exact);
    let unit = pow2(excess);
    let rounded = div_round_half_even(exact, unit);
    let total = (-binary_exponent(bits)) as nat;
    lemma2_to64();
    lemma2_to64_rest();
    lemma_bit_length_bounds(exact, 39);
    let drop = (total - excess) as nat;
    let step = pow2(drop);
    lemma_pow2_pos(excess);
    lemma_pow2_pos(drop);
    lemma_pow2_adds(excess, drop);
    let quotient = exact / unit;
    assert(quotient <= rounded <= quotient + 1);
    lemma_div_denominator(exact as int, unit as int, step as int);
    assert(exact_scaled_floor(bits) == quotient / step);
    assert(scaled_magnitude(bits) == rounded / step);
    lemma_div_is_ordered(quotient as int, rounded as int, step as int);
    lemma_div_is_ordered(rounded as int, (step + quotient) as int, step as int);
    lemma_div_plus_one(quotient as int, step as int);
}

/// A magnitude below one scales to 32767 at most: the exact product lies
/// below 32767, and rounding adds one at most to its integer part.
pub proof fn lemma_scaled_magnitude_bound(bits: u32)
    requires
        exponent_field(bits) <= 126,
    ensures
        scaled_magnitude(bits) <= 32767,
{
    let exact = 32767 * significand(bits);
    let unit = pow2((-binary_exponent(bits)) as nat);
    lemma2_to64();
    if -binary_exponent(bits) > 24 {
        lemma_pow2_strictly_increases(24, (-binary_exponent(bits)) as nat);
    }
    assert(exact < 32767 * unit) by (nonlinear_arith)
        requires
            exact == 32767 * significand(bits),
            significand(bits) < unit,
    ;
    lemma_div_by_multiple_is_strongly_ordered(
        exact as int,
        32767 * (unit as int),
        32767,
        unit as int,
    );
    lemma_div_multiples_vanish(32767, unit as int);
    assert(32767 * unit == unit * 32767) by (nonlinear_arith);
    lemma_scaled_magnitude_near_exact(bits);
}

/// No sample quantizes to -32768: the values lie between -32767 and 32767.
pub proof fn lemma_quantized_bounds(bits: u32)
    ensures
        -32767 <= quantized(bits) <= 32767,
{
    if exponent_field(bits) <= 126 {
        lemma_scaled_magnitude_bound(bits);
    }
}

/// Every magnitude of one or more, infinite ones too, quantizes to full
/// scale with the sign of the sample.
pub proof fn lemma_quantized_full_scale(bits: u32)
    requires
        exponent_field(bits) >= 127,
        !is_nan(bits),
    ensures
        quantized(bits) == if is_negative(bits) {
            -32767int
        } else {
            32767int
        },
{
}

/// The samples 1.0, -1.0 and 0.0 quantize to 32767, -32767 and 0.
pub proof fn lemma_quantized_units()
    ensures
        quantized(0x3f80_0000) == 32767,
        quantized(0xbf80_0000) == -32767,
        quantized(0) == 0,
{
    lemma_tiny_magnitude(0);
}

/// The pattern of the same magnitude with the other sign.
pub open spec fn negated(bits: u32) -> u32 {
    if bits >= 0x8000_0000 {
        (bits - 0x8000_0000) as u32
    } else {
        (bits + 0x8000_0000) as u32
    }
}

/// Quantization is symmetric: the sample of the same magnitude and the
/// other sign quantizes to the negated value.
pub proof fn lemma_quantized_mirror(bits: u32)
    ensures
        quantized(negated(bits)) == -quantized(bits),
{
    assert(exponent_field(negated(bits)) == exponent_field(bits));
    assert(fraction_field(negated(bits)) == fraction_field(bits));
}

/// Quantizes one sample, given as its binary32 bit pattern, to 16-bit PCM.
pub fn quantize(bits: u32) -> (pcm: i16)
    ensures
        pcm == quantized(bits),
        -32767 <= pcm <= 32767,
{
    let exponent: u32 = (bits >> 23) & 0xff;
    let fraction: u32 = bits & 0x7f_ffff;
    let negative: bool = bits >= 0x8000_0000;
    assert(exponent == (bits / 0x80_0000) % 256 && fraction == bits % 0x80_0000) by (bit_vector)
        requires
            exponent == (bits >> 23) & 0xff,
            fraction == bits & 0x7f_ffff,
    ;
    if exponent == 255 && fraction != 0 {
        return 0;
    }
    if exponent >= UNIT_EXPONENT {
        return if negative {
            -FULL_SCALE
        } else {
            FULL_SCALE
        };
    }
    if exponent < LEAST_EXPONENT {
        proof {
            lemma_tiny_magnitude(bits);
        }
        return 0;
    }
    let significand: u64 = 0x80_0000 + fraction as u64;
    let exact: u64 = 32767 * significand;
    let wide: bool = exact >= 0x40_0000_0000;
    let unit: u64 = if wide {
        0x8000
    } else {
        0x4000
    };
    let excess: u32 = if wide {
        15
    } else {
        14
    };
    let quotient: u64 = exact / unit;
    let remainder: u64 = exact % unit;
    let rounded: u64 = if 2 * remainder > unit || (2 * remainder == unit && quotient % 2 == 1) {
        quotient + 1
    } else {
        quotient
    };
    let shift: u32 = 150 - exponent - excess;
    let whole: u64 = rounded >> (shift as u64);
    proof {
        lemma2_to64();
        lemma2_to64_rest();
        lemma_bit_length_bounds(exact as nat, 37);
        lemma_bit_length_bounds(exact as nat, 38);
        lemma_bit_length_bounds(exact as nat, 39);
        assert(excess_bits(exact as nat) == excess);
        assert(pow2(excess as nat) == unit);
        assert(rounded == div_round_half_even(exact as nat, unit as nat));
        lemma_u64_shr_is_div(rounded, shift as u64);
        assert(binary_exponent(bits) + excess == -(shift as int));
        assert(whole == scaled_magnitude(bits));
        lemma_scaled_magnitude_bound(bits);
    }
    let magnitude: i16 = whole as i16;
    if negative {
        -magnitude
    } else {
        magnitude
    }
}

} // verus!
