//! Comparisons on single- and double-precision numbers given as their
//! IEEE 754 bit patterns.

use vstd::prelude::*;
use vstd::arithmetic::power2::{
    lemma2_to64, lemma_pow2_adds, lemma_pow2_pos, lemma_pow2_strictly_increases, pow2,
};
use vstd::bits::{lemma_u32_shr_is_div, lemma_u64_shl_is_mul};

verus! {

/// The biased exponent of a single-precision pattern.
pub open spec fn exponent_field(bits: u32) -> u32 {
    (bits >> 23) & 0xff
}

/// The fraction bits of a single-precision pattern.
pub open spec fn fraction_field(bits: u32) -> u32 {
    bits & 0x7f_ffff
}

/// Whether the sign bit of a single-precision pattern is set.
pub open spec fn sign_set(bits: u32) -> bool {
    bits >> 31 == 1
}

/// Whether the pattern is a NaN: all exponent bits set, fraction not zero.
pub open spec fn is_nan(bits: u32) -> bool {
    exponent_field(bits) == 255 && fraction_field(bits) != 0
}

/// Whether the number's absolute value is greater than two. Two itself has
/// exponent field 128 and an empty fraction; an infinity is greater, a NaN
/// is not.
pub open spec fn magnitude_above_two(bits: u32) -> bool {
    !is_nan(bits) && (exponent_field(bits) > 128 || (exponent_field(bits) == 128
        && fraction_field(bits) != 0))
}

/// Whether the number is greater than four. Four has exponent field 129 and
/// an empty fraction; no negative number and no NaN is greater.
pub open spec fn above_four(bits: u32) -> bool {
    !is_nan(bits) && !sign_set(bits) && (exponent_field(bits) > 129 || (exponent_field(bits)
        == 129 && fraction_field(bits) != 0))
}

/// Whether the number is less than zero: negative, not a zero and not a NaN.
pub open spec fn below_zero(bits: u32) -> bool {
    sign_set(bits) && !is_nan(bits) && (exponent_field(bits) != 0 || fraction_field(bits) != 0)
}

/// Whether a double-precision pattern is a NaN.
pub open spec fn is_nan_wide(bits: u64) -> bool {
    (bits >> 52) & 0x7ff == 0x7ff && bits & 0xf_ffff_ffff_ffff != 0
}

/// Whether a double-precision number is less than zero.
pub open spec fn below_zero_wide(bits: u64) -> bool {
    bits >> 63 == 1 && !is_nan_wide(bits) && ((bits >> 52) & 0x7ff != 0 || bits
        & 0xf_ffff_ffff_ffff != 0)
}

/// The pattern of positive zero.
pub const ZERO: u32 = 0;

/// The pattern of one.
pub const ONE: u32 = 0x3f80_0000;

const TWO: u32 = 0x4000_0000;

const FOUR: u32 = 0x4080_0000;

const INFINITY: u32 = 0x7f80_0000;

const SIGN: u32 = 0x8000_0000;

const NEG_INFINITY: u32 = 0xff80_0000;

const NEG_INFINITY_WIDE: u64 = 0xfff0_0000_0000_0000;

const SIGN_WIDE: u64 = 0x8000_0000_0000_0000;

/// The cheap escape bound on one component: is its absolute value above two?
pub fn magnitude_exceeds_two(bits: u32) -> (r: bool)
    ensures
        r == magnitude_above_two(bits),
{
    let mag: u32 = bits & 0x7fff_ffff;
    assert((((bits & 0x7fff_ffff) > 0x4000_0000u32) && ((bits & 0x7fff_ffff) <= 0x7f80_0000u32))
        == (!(((bits >> 23) & 0xff) == 255 && (bits & 0x7f_ffff) != 0) && (((bits >> 23) & 0xff)
        > 128 || (((bits >> 23) & 0xff) == 128 && (bits & 0x7f_ffff) != 0)))) by (bit_vector);
    mag > TWO && mag <= INFINITY
}

/// The precise escape bound on a squared magnitude: is it above four?
pub fn exceeds_four(bits: u32) -> (r: bool)
    ensures
        r == above_four(bits),
{
    assert(((bits > 0x4080_0000u32) && (bits <= 0x7f80_0000u32)) == (!(((bits >> 23) & 0xff)
        == 255 && (bits & 0x7f_ffff) != 0) && !(bits >> 31 == 1) && (((bits >> 23) & 0xff) > 129
        || (((bits >> 23) & 0xff) == 129 && (bits & 0x7f_ffff) != 0)))) by (bit_vector);
    bits > FOUR && bits <= INFINITY
}

/// Is the single-precision number negative (less than zero)?
pub fn is_negative(bits: u32) -> (r: bool)
    ensures
        r == below_zero(bits),
{
    assert(((bits > 0x8000_0000u32) && (bits <= 0xff80_0000u32)) == ((bits >> 31 == 1) && !(((
    bits >> 23) & 0xff) == 255 && (bits & 0x7f_ffff) != 0) && (((bits >> 23) & 0xff) != 0 || (bits
        & 0x7f_ffff) != 0))) by (bit_vector);
    bits > SIGN && bits <= NEG_INFINITY
}

/// Is the double-precision number negative (less than zero)?
pub fn is_negative_wide(bits: u64) -> (r: bool)
    ensures
        r == below_zero_wide(bits),
{
    assert(((bits > 0x8000_0000_0000_0000u64) && (bits <= 0xfff0_0000_0000_0000u64)) == ((bits
        >> 63 == 1) && !((bits >> 52) & 0x7ff == 0x7ff && bits & 0xf_ffff_ffff_ffff != 0) && ((bits
        >> 52) & 0x7ff != 0 || bits & 0xf_ffff_ffff_ffff != 0))) by (bit_vector);
    bits > SIGN_WIDE && bits <= NEG_INFINITY_WIDE
}

/// `p` in units of `unit`, rounded to the nearest whole number of units, a
/// tie going to the even one.
pub open spec fn round_half_even(p: int, unit: int) -> int {
    let q = p / unit;
    let rem = p % unit;
    if 2 * rem > unit || (2 * rem == unit && q % 2 == 1) {
        q + 1
    } else {
        q
    }
}

/// The absolute value of one hundred times a single-precision number,
/// computed in single precision and then cut to an integer: the product is
/// rounded to 24 significant bits, ties to even, and what is left of it
/// after the binary point is dropped. A NaN gives zero; what does not fit
/// in 32 bits gives the largest integer that does.
pub open spec fn hundredfold_magnitude(bits: u32) -> u32 {
    let e = exponent_field(bits) as int;
    if is_nan(bits) || e == 0 {
        0
    } else if e == 255 {
        u32::MAX
    } else {
        let p = 100 * (0x80_0000 + fraction_field(bits));
        let k: int = if p < 0x4000_0000 {
            6
        } else {
            7
        };
        let q = round_half_even(p, pow2(k as nat) as int);
        let scale = e + k - 150;
        let value = if scale >= 0 {
            q * pow2(scale as nat)
        } else {
            q / (pow2((-scale) as nat) as int)
        };
        if value > u32::MAX {
            u32::MAX
        } else {
            value as u32
        }
    }
}

/// One hundred times a single-precision number, computed in single
/// precision and then cut to an integer, towards zero: the magnitude above
/// with the sign of the number.
pub open spec fn hundredfold_of(bits: u32) -> int {
    if sign_set(bits) {
        -(hundredfold_magnitude(bits) as int)
    } else {
        hundredfold_magnitude(bits) as int
    }
}

/// One hundred times the number, in single precision, cut to an integer
/// towards zero.
pub fn hundredfold(bits: u32) -> (r: i64)
    ensures
        r == hundredfold_of(bits),
{
    let magnitude: u32 = hundredfold_unsigned(bits);
    if bits >> 31 == 1 {
        -(magnitude as i64)
    } else {
        magnitude as i64
    }
}

fn hundredfold_unsigned(bits: u32) -> (r: u32)
    ensures
        r == hundredfold_magnitude(bits),
{
    let e: u32 = (bits >> 23) & 0xff;
    let f: u32 = bits & 0x7f_ffff;
    assert(((bits >> 23) & 0xff) <= 255 && (bits & 0x7f_ffff) <= 0x7f_ffff) by (bit_vector);
    if e == 0 {
        return 0;
    }
    if e == 255 {
        return if f == 0 {
            u32::MAX
        } else {
            0
        };
    }
    let p: u32 = 100 * (0x80_0000 + f);
    let k: u32 = if p < 0x4000_0000 {
        6
    } else {
        7
    };
    let unit: u32 = if p < 0x4000_0000 {
        64
    } else {
        128
    };
    let whole: u32 = p / unit;
    let rem: u32 = p % unit;
    let q: u32 = if 2 * rem > unit || (2 * rem == unit && whole % 2 == 1) {
        whole + 1
    } else {
        whole
    };
    proof {
        lemma2_to64();
        assert(pow2(k as nat) == unit);
        assert(q == round_half_even(p as int, pow2(k as nat) as int));
        assert(0x80_0000 <= q <= 0x100_0000);
    }
    if e + k >= 150 {
        let up: u32 = e + k - 150;
        if up >= 9 {
            proof {
                if up > 9 {
                    lemma_pow2_strictly_increases(9, up as nat);
                }
                assert(q * pow2(up as nat) >= 0x80_0000 * 512) by (nonlinear_arith)
                    requires
                        q >= 0x80_0000,
                        pow2(up as nat) >= 512,
                ;
            }
            u32::MAX
        } else {
            proof {
                assert(pow2(up as nat) <= 256);
                assert(q * pow2(up as nat) <= 0x100_0000 * 256) by (nonlinear_arith)
                    requires
                        q <= 0x100_0000,
                        pow2(up as nat) <= 256,
                ;
                lemma_u64_shl_is_mul(q as u64, up as u64);
            }
            let v: u64 = (q as u64) << (up as u64);
            if v > 0xffff_ffff {
                u32::MAX
            } else {
                v as u32
            }
        }
    } else {
        let down: u32 = 150 - (e + k);
        if down >= 25 {
            proof {
                if down > 25 {
                    lemma_pow2_strictly_increases(25, down as nat);
                }
                assert(pow2(down as nat) > q);
                assert(q as int / (pow2(down as nat) as int) == 0) by (nonlinear_arith)
                    requires
                        0 <= q < pow2(down as nat),
                ;
            }
            0
        } else {
            proof {
                lemma_u32_shr_is_div(q, down);
            }
            q >> down
        }
    }
}

/// Whether the pattern is a finite number: neither an infinity nor a NaN.
pub open spec fn is_finite(bits: u32) -> bool {
    exponent_field(bits) != 255
}

/// Whether the pattern is an infinity.
pub open spec fn is_infinite(bits: u32) -> bool {
    exponent_field(bits) == 255 && fraction_field(bits) == 0
}

/// The absolute value of a finite number, counted in units of 2^-149, the
/// smallest positive number there is. A number with exponent field zero is
/// its fraction in these units; any other has an implied leading bit and is
/// scaled by its exponent. One is 2^149 units, two 2^150, four 2^151.
pub open spec fn magnitude_units(bits: u32) -> nat {
    let e = exponent_field(bits) as nat;
    let f = fraction_field(bits) as nat;
    if e == 0 {
        f
    } else {
        (0x80_0000 + f) * pow2((e - 1) as nat)
    }
}

/// How a number with a leading bit compares with 2^(23 + `at`) units.
proof fn lemma_units_by_exponent(bits: u32, at: nat)
    requires
        is_finite(bits),
        1 <= at <= 253,
    ensures
        exponent_field(bits) > at + 1 ==> magnitude_units(bits) > pow2(23 + at),
        exponent_field(bits) == at + 1 ==> magnitude_units(bits) == (0x80_0000 + fraction_field(
            bits,
        )) * pow2(at),
        exponent_field(bits) <= at ==> magnitude_units(bits) < pow2(23 + at),
        pow2(23 + at) == 0x80_0000 * pow2(at),
{
    let e = exponent_field(bits) as nat;
    let f = fraction_field(bits) as nat;
    assert((bits & 0x7f_ffff) < 0x80_0000) by (bit_vector);
    lemma2_to64();
    lemma_pow2_adds(23, at);
    lemma_pow2_pos(at);
    if e > at + 1 {
        lemma_pow2_strictly_increases(at, (e - 1) as nat);
        assert((0x80_0000 + f) * pow2((e - 1) as nat) > 0x80_0000 * pow2(at)) by (nonlinear_arith)
            requires
                pow2((e - 1) as nat) > pow2(at),
                pow2(at) > 0,
        ;
    } else if e == at + 1 {
    } else if e == 0 {
        assert(f < 0x80_0000 * pow2(at)) by (nonlinear_arith)
            requires
                f < 0x80_0000,
                pow2(at) > 0,
        ;
    } else {
        lemma_pow2_adds(1, (at - 1) as nat);
        lemma_pow2_pos((e - 1) as nat);
        if e < at {
            lemma_pow2_strictly_increases((e - 1) as nat, (at - 1) as nat);
        }
        assert((0x80_0000 + f) * pow2((e - 1) as nat) < 0x80_0000 * (2 * pow2((at - 1) as nat)))
            by (nonlinear_arith)
            requires
                f < 0x80_0000,
                pow2((e - 1) as nat) <= pow2((at - 1) as nat),
                pow2((e - 1) as nat) > 0,
        ;
    }
}

/// The cheap bound holds of the infinities and of the finite numbers whose
/// absolute value is more than two, and of nothing else.
pub proof fn above_two_by_value(bits: u32)
    ensures
        magnitude_above_two(bits) <==> is_infinite(bits) || (is_finite(bits) && magnitude_units(
            bits,
        ) > pow2(150)),
{
    if is_finite(bits) {
        assert(((bits >> 23) & 0xff) <= 255) by (bit_vector);
        lemma_units_by_exponent(bits, 127);
        lemma_pow2_pos(127);
        let f = fraction_field(bits) as nat;
        assert((0x80_0000 + f) * pow2(127) > 0x80_0000 * pow2(127) <==> f != 0)
            by (nonlinear_arith)
            requires
                pow2(127) > 0,
        ;
    }
}

/// The precise bound holds of positive infinity and of the finite numbers
/// that are more than four, and of nothing else.
pub proof fn above_four_by_value(bits: u32)
    ensures
        above_four(bits) <==> !sign_set(bits) && (is_infinite(bits) || (is_finite(bits)
            && magnitude_units(bits) > pow2(151))),
{
    if is_finite(bits) {
        assert(((bits >> 23) & 0xff) <= 255) by (bit_vector);
        lemma_units_by_exponent(bits, 128);
        lemma_pow2_pos(128);
        let f = fraction_field(bits) as nat;
        assert((0x80_0000 + f) * pow2(128) > 0x80_0000 * pow2(128) <==> f != 0)
            by (nonlinear_arith)
            requires
                pow2(128) > 0,
        ;
    }
}

/// A number is below zero when its sign is set and it is an infinity or a
/// finite number other than zero.
pub proof fn below_zero_by_value(bits: u32)
    ensures
        below_zero(bits) <==> sign_set(bits) && (is_infinite(bits) || (is_finite(bits)
            && magnitude_units(bits) > 0)),
{
    let e = exponent_field(bits) as nat;
    let f = fraction_field(bits) as nat;
    if is_finite(bits) && e != 0 {
        lemma_pow2_pos((e - 1) as nat);
        assert((0x80_0000 + f) * pow2((e - 1) as nat) > 0) by (nonlinear_arith)
            requires
                pow2((e - 1) as nat) > 0,
        ;
    }
}

} // verus!
