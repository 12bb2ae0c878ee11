//! Resampling rates and the exact arithmetic of buffer lengths.
//!
//! A rate is carried as the bit pattern of an IEEE-754 single-precision
//! number. Every finite such number is a dyadic rational
//! `significand * 2^scale`, so the length of a resampled sequence can be
//! computed in integers, without any rounding.

use vstd::prelude::*;
use vstd::arithmetic::div_mod::lemma_fundamental_div_mod;
use vstd::arithmetic::power2::{
    lemma2_to64,
    lemma2_to64_rest,
    lemma_pow2_pos,
    lemma_pow2_strictly_increases,
    pow2,
};
use vstd::bits::{lemma_u64_pow2_no_overflow, lemma_u64_shl_is_mul};

verus! {

/// The largest length that the native layer can represent.
pub const MAX_LENGTH: u64 = 0xffff_ffff;

/// The biased exponent of a bit pattern: bits 23 to 30.
pub open spec fn exponent_field(bits: u32) -> int {
    (bits as int / 0x80_0000) % 0x100
}

/// The fraction of a bit pattern: bits 0 to 22.
pub open spec fn fraction_field(bits: u32) -> int {
    bits as int % 0x80_0000
}

/// Whether a bit pattern stands for a positive real number: the sign bit is
/// clear, and the pattern is neither zero, an infinity nor a NaN.
pub open spec fn is_positive_real(bits: u32) -> bool {
    0 < bits < 0x7f80_0000
}

/// The integer `m` of the value `m * 2^scale` of a finite bit pattern.
/// A normal number has the implicit leading one, a subnormal one has not.
pub open spec fn significand(bits: u32) -> nat {
    if exponent_field(bits) == 0 {
        fraction_field(bits) as nat
    } else {
        (0x80_0000 + fraction_field(bits)) as nat
    }
}

/// The power of two by which the significand of a finite bit pattern is
/// scaled.
pub open spec fn scale(bits: u32) -> int {
    if exponent_field(bits) == 0 {
        -149
    } else {
        exponent_field(bits) - 150
    }
}

/// The numerator of the value of a finite bit pattern, as a fraction whose
/// denominator is `denominator(bits)`.
pub open spec fn numerator(bits: u32) -> nat {
    if scale(bits) >= 0 {
        significand(bits) * pow2(scale(bits) as nat)
    } else {
        significand(bits)
    }
}

/// The denominator of the value of a finite bit pattern: a power of two.
pub open spec fn denominator(bits: u32) -> nat {
    if scale(bits) >= 0 {
        1
    } else {
        pow2((-scale(bits)) as nat)
    }
}

/// The quotient `a / d` rounded up to the next integer, for `d > 0`.
pub open spec fn ceil_div(a: nat, d: nat) -> nat {
    ((a + d - 1) / (d as int)) as nat
}

/// `ceil(length * rate)`: the number of samples that `length` samples become
/// at the rate given by `bits`, rounded up.
pub open spec fn resampled_length(bits: u32, length: nat) -> nat {
    ceil_div(length * numerator(bits), denominator(bits))
}

/// The ceiling of a quotient is the least integer whose product with the
/// divisor reaches the dividend.
pub proof fn lemma_ceil_div_bounds(a: nat, d: nat)
    requires
        d > 0,
    ensures
        (ceil_div(a, d) - 1) * d < a <= ceil_div(a, d) * d,
{
    let x = a + d - 1;
    lemma_fundamental_div_mod(x, d as int);
    let q = x / (d as int);
    let r = x % (d as int);
    assert(q >= 0) by (nonlinear_arith)
        requires
            x == d * q + r,
            0 <= r < d,
            x >= 0,
            d > 0,
    ;
    assert(q * d == d * q) by (nonlinear_arith);
    assert((q - 1) * d == d * q - d) by (nonlinear_arith);
}

/// Only one integer lies between the bounds that `lemma_ceil_div_bounds`
/// gives.
pub proof fn lemma_ceil_div_unique(a: nat, d: nat, c: int)
    requires
        d > 0,
        (c - 1) * d < a <= c * d,
    ensures
        c == ceil_div(a, d),
{
    lemma_ceil_div_bounds(a, d);
    let q = ceil_div(a, d) as int;
    assert(c == q) by (nonlinear_arith)
        requires
            d > 0,
            (c - 1) * d < a <= c * d,
            (q - 1) * d < a <= q * d,
    ;
}

/// The denominator of a positive real is positive, and its numerator too.
pub proof fn lemma_fraction_positive(bits: u32)
    requires
        is_positive_real(bits),
    ensures
        denominator(bits) > 0,
        numerator(bits) > 0,
        0 < significand(bits) < 0x100_0000,
        -149 <= scale(bits) <= 104,
{
    if scale(bits) >= 0 {
        lemma_pow2_pos(scale(bits) as nat);
        assert(numerator(bits) > 0) by (nonlinear_arith)
            requires
                numerator(bits) == significand(bits) * pow2(scale(bits) as nat),
                significand(bits) > 0,
                pow2(scale(bits) as nat) > 0,
        ;
    } else {
        lemma_pow2_pos((-scale(bits)) as nat);
    }
}

/// `resampled_length(bits, length)` is the ceiling of the product of
/// `length` and the rate: the least integer `c` with
/// `c * denominator >= length * numerator`.
pub proof fn lemma_resampled_length_is_ceiling(bits: u32, length: nat)
    requires
        is_positive_real(bits),
    ensures
        (resampled_length(bits, length) - 1) * denominator(bits) < length * numerator(bits),
        length * numerator(bits) <= resampled_length(bits, length) * denominator(bits),
{
    lemma_fraction_positive(bits);
    lemma_ceil_div_bounds(length * numerator(bits), denominator(bits));
}

/// Whether `bits` stands for a positive real number.
pub fn positive_real(bits: u32) -> (ok: bool)
    ensures
        ok == is_positive_real(bits),
{
    0 < bits && bits < 0x7f80_0000
}

/// Computes `ceil(length * rate)` where it fits the native length type.
///
/// Returns `Some` of the exact value if it is at most `MAX_LENGTH`, and
/// `None` if it is larger.
pub fn checked_resampled_length(bits: u32, length: u32) -> (r: Option<u32>)
    requires
        is_positive_real(bits),
    ensures
        r is Some <==> resampled_length(bits, length as nat) <= MAX_LENGTH,
        r matches Some(v) ==> v == resampled_length(bits, length as nat),
{
    let field: u32 = (bits >> 23) & 0xff;
    let fraction: u32 = bits & 0x7f_ffff;
    assert(field == exponent_field(bits) && fraction == fraction_field(bits)) by {
        assert((bits >> 23) & 0xff == (bits / 0x80_0000) % 0x100) by (bit_vector);
        assert(bits & 0x7f_ffff == bits % 0x80_0000) by (bit_vector);
    }
    let mantissa: u64 = if field == 0 {
        fraction as u64
    } else {
        0x80_0000u64 + fraction as u64
    };
    proof {
        lemma_fraction_positive(bits);
    }
    assert(length * mantissa < 0x100_0000_0000_0000) by (nonlinear_arith)
        requires
            length <= 0xffff_ffff,
            mantissa < 0x100_0000,
    ;
    let product: u64 = (length as u64) * mantissa;
    if field >= 150 {
        // The rate is the integer `mantissa * 2^shift`.
        let shift: u32 = field - 150;
        proof {
            lemma_pow2_pos(shift as nat);
            assert(length as nat * numerator(bits) == product * pow2(shift as nat))
                by (nonlinear_arith)
                requires
                    numerator(bits) == significand(bits) * pow2(shift as nat),
                    product == length as nat * significand(bits),
            ;
        }
        if product == 0 {
            assert(product * pow2(shift as nat) == 0) by (nonlinear_arith)
                requires
                    product == 0,
            ;
            Some(0)
        } else if shift >= 9 {
            // One sample alone becomes at least `2^23 * 2^9` samples.
            proof {
                lemma2_to64();
                if shift > 9 {
                    lemma_pow2_strictly_increases(9, shift as nat);
                }
                assert(product >= 0x80_0000) by (nonlinear_arith)
                    requires
                        product == length * mantissa,
                        product != 0,
                        mantissa >= 0x80_0000,
                ;
                assert(product * pow2(shift as nat) > MAX_LENGTH) by (nonlinear_arith)
                    requires
                        product >= 0x80_0000,
                        pow2(shift as nat) >= 0x200,
                ;
            }
            None
        } else {
            proof {
                lemma2_to64();
                if shift < 8 {
                    lemma_pow2_strictly_increases(shift as nat, 8);
                }
                assert(product * pow2(shift as nat) <= u64::MAX) by (nonlinear_arith)
                    requires
                        product < 0x100_0000_0000_0000,
                        pow2(shift as nat) <= 0x100,
                ;
                lemma_u64_shl_is_mul(product, shift as u64);
            }
            let scaled: u64 = product << (shift as u64);
            if scaled > MAX_LENGTH {
                None
            } else {
                Some(scaled as u32)
            }
        }
    } else {
        // The rate is the fraction `mantissa / 2^shift`.
        let shift: u32 = if field == 0 {
            149
        } else {
            150 - field
        };
        proof {
            lemma_pow2_pos(shift as nat);
        }
        if product == 0 {
            proof {
                lemma_ceil_div_unique(0, pow2(shift as nat), 0);
            }
            Some(0)
        } else if shift >= 56 {
            // The product lies below `2^56`, so the quotient lies in `(0, 1)`.
            proof {
                lemma2_to64_rest();
                if shift > 56 {
                    lemma_pow2_strictly_increases(56, shift as nat);
                }
                lemma_ceil_div_unique(product as nat, pow2(shift as nat), 1);
            }
            Some(1)
        } else {
            proof {
                lemma_u64_pow2_no_overflow(shift as nat);
                lemma_u64_shl_is_mul(1, shift as u64);
            }
            let divisor: u64 = 1u64 << (shift as u64);
            let quotient: u64 = product / divisor;
            let remainder: u64 = product % divisor;
            let rounded: u64 = if remainder == 0 {
                quotient
            } else {
                quotient + 1
            };
            proof {
                lemma_fundamental_div_mod(product as int, divisor as int);
                assert((rounded - 1) * divisor < product <= rounded * divisor)
                    by (nonlinear_arith)
                    requires
                        product == divisor * quotient + remainder,
                        0 <= remainder < divisor,
                        rounded == if remainder == 0 {
                            quotient as int
                        } else {
                            quotient + 1
                        },
                ;
                lemma_ceil_div_unique(product as nat, divisor as nat, rounded as int);
            }
            if rounded > MAX_LENGTH {
                None
            } else {
                Some(rounded as u32)
            }
        }
    }
}

} // verus!
