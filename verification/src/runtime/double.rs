//! IEEE-754 binary64 numbers, seen as their 64-bit patterns.
//!
//! A pattern splits into a sign bit, eleven bits of biased exponent and
//! fifty-two bits of mantissa. All arithmetic here is on integers: the value
//! of a finite pattern is `significand * 2^exponent`, negated when the sign
//! bit is set.

use vstd::prelude::*;
use vstd::arithmetic::power2::pow2;
use vstd::arithmetic::power2::lemma_pow2_pos;
use vstd::arithmetic::power2::lemma_pow2_adds;
use vstd::arithmetic::power2::lemma_pow2_strictly_increases;
use vstd::arithmetic::power2::lemma2_to64;
use vstd::arithmetic::power2::lemma2_to64_rest;
use vstd::arithmetic::power2::lemma_pow2_unfold;
use vstd::arithmetic::div_mod::lemma_basic_div;
use vstd::arithmetic::div_mod::lemma_small_mod;
use vstd::arithmetic::div_mod::lemma_div_is_ordered;
use vstd::arithmetic::div_mod::lemma_div_by_multiple;
use vstd::arithmetic::div_mod::lemma_mod_multiples_basic;
use vstd::arithmetic::div_mod::lemma_multiply_divide_lt;
use vstd::bits::lemma_u64_shl_is_mul;
use vstd::bits::lemma_u64_pow2_no_overflow;

verus! {

/// The biased exponent that marks infinities and NaNs.
pub const EXPONENT_SPECIAL: u64 = 0x7ff;

/// The biased exponent of numbers in `[1, 2)`.
pub const EXPONENT_BIAS: u64 = 1023;

/// The leading one of a normal number's significand, which the pattern
/// leaves out: `2^52`, one more than the largest mantissa.
pub const HIDDEN_BIT: u64 = 0x0010_0000_0000_0000;

/// The lowest pattern with the sign bit set, which is that of `-0.0`.
pub const NEGATIVE_ZERO: u64 = 0x8000_0000_0000_0000;

/// The pattern of `1.0`.
pub const ONE: u64 = 0x3ff0_0000_0000_0000;

/// One more than the largest significand.
pub const SIGNIFICAND_LIMIT: u64 = 0x0020_0000_0000_0000;

/// Whether the sign bit of `d` is set.
pub open spec fn spec_is_negative(d: u64) -> bool {
    d >= NEGATIVE_ZERO
}

/// The eleven bits below the sign bit.
pub open spec fn spec_biased_exponent(d: u64) -> nat {
    ((d / HIDDEN_BIT) % 0x800) as nat
}

/// The low fifty-two bits.
pub open spec fn spec_mantissa(d: u64) -> nat {
    (d % HIDDEN_BIT) as nat
}

pub open spec fn spec_is_nan(d: u64) -> bool {
    spec_biased_exponent(d) == EXPONENT_SPECIAL && spec_mantissa(d) != 0
}

pub open spec fn spec_is_infinite(d: u64) -> bool {
    spec_biased_exponent(d) == EXPONENT_SPECIAL && spec_mantissa(d) == 0
}

pub open spec fn spec_is_finite(d: u64) -> bool {
    spec_biased_exponent(d) != EXPONENT_SPECIAL
}

/// The integer that the exponent scales: the mantissa, with the hidden bit
/// in front unless the number is zero or subnormal.
pub open spec fn significand(d: u64) -> nat {
    if spec_biased_exponent(d) == 0 {
        spec_mantissa(d)
    } else {
        spec_mantissa(d) + HIDDEN_BIT as nat
    }
}

/// The power of two that scales the significand.
pub open spec fn exponent(d: u64) -> int {
    if spec_biased_exponent(d) == 0 {
        1 - 1075
    } else {
        spec_biased_exponent(d) - 1075
    }
}

/// The absolute value of a finite `d`, rounded down to an integer.
pub open spec fn magnitude_floor(d: u64) -> nat {
    if exponent(d) >= 0 {
        significand(d) * pow2(exponent(d) as nat)
    } else {
        significand(d) / pow2((-exponent(d)) as nat)
    }
}

/// Whether `d` is finite and its value is an integer.
pub open spec fn is_integer(d: u64) -> bool {
    spec_is_finite(d) && (exponent(d) >= 0 || significand(d) % pow2((-exponent(d)) as nat) == 0)
}

/// The value of a finite `d`, rounded toward zero.
pub open spec fn truncated(d: u64) -> int {
    if spec_is_negative(d) {
        -(magnitude_floor(d) as int)
    } else {
        magnitude_floor(d) as int
    }
}

/// Whether the sign bit of `d` is set.
#[verifier::when_used_as_spec(spec_is_negative)]
pub fn is_negative(d: u64) -> (b: bool)
    ensures
        b == spec_is_negative(d),
{
    d >= NEGATIVE_ZERO
}

/// The biased exponent of `d`.
#[verifier::when_used_as_spec(spec_biased_exponent_u64)]
pub fn biased_exponent(d: u64) -> (e: u64)
    ensures
        e == spec_biased_exponent(d),
        e <= EXPONENT_SPECIAL,
{
    (d / HIDDEN_BIT) % 0x800
}

pub open spec fn spec_biased_exponent_u64(d: u64) -> u64 {
    spec_biased_exponent(d) as u64
}

pub open spec fn spec_mantissa_u64(d: u64) -> u64 {
    spec_mantissa(d) as u64
}

/// The mantissa of `d`.
#[verifier::when_used_as_spec(spec_mantissa_u64)]
pub fn mantissa(d: u64) -> (m: u64)
    ensures
        m == spec_mantissa(d),
        m < HIDDEN_BIT,
{
    d % HIDDEN_BIT
}

/// Whether `d` is a NaN.
#[verifier::when_used_as_spec(spec_is_nan)]
pub fn is_nan(d: u64) -> (b: bool)
    ensures
        b == spec_is_nan(d),
{
    biased_exponent(d) == EXPONENT_SPECIAL && mantissa(d) != 0
}

/// Whether `d` is one of the two infinities.
#[verifier::when_used_as_spec(spec_is_infinite)]
pub fn is_infinite(d: u64) -> (b: bool)
    ensures
        b == spec_is_infinite(d),
{
    biased_exponent(d) == EXPONENT_SPECIAL && mantissa(d) == 0
}

/// `2^n`, for an `n` that leaves the power within 64 bits.
pub fn power_of_two(n: u64) -> (p: u64)
    requires
        n < 64,
    ensures
        p == pow2(n as nat),
        p > 0,
{
    proof {
        lemma_u64_pow2_no_overflow(n as nat);
        lemma_u64_shl_is_mul(1, n);
    }
    1u64 << n
}

/// A significand is below `2^53`, and from `2^52` up unless the number is
/// zero or subnormal.
pub proof fn lemma_significand_bounds(d: u64)
    ensures
        significand(d) < SIGNIFICAND_LIMIT,
        spec_biased_exponent(d) != 0 ==> significand(d) >= HIDDEN_BIT,
{
}

/// Dividing a significand by `2^n` with `n >= 53` leaves nothing, and all
/// of it as the remainder.
pub proof fn lemma_significand_vanishes(s: nat, n: nat)
    requires
        s < SIGNIFICAND_LIMIT,
        n >= 53,
    ensures
        s / pow2(n) == 0,
        s % pow2(n) == s,
{
    lemma2_to64_rest();
    if n > 53 {
        lemma_pow2_strictly_increases(53, n);
    }
    lemma_basic_div(s as int, pow2(n) as int);
    lemma_small_mod(s, pow2(n));
}

/// A number below one in absolute value rounds to zero, and is an integer
/// only if it is zero.
pub proof fn lemma_below_one(d: u64)
    requires
        spec_biased_exponent(d) < EXPONENT_BIAS,
    ensures
        magnitude_floor(d) == 0,
        is_integer(d) <==> (d == 0 || d == NEGATIVE_ZERO),
{
    lemma_significand_bounds(d);
    lemma_significand_vanishes(significand(d), (-exponent(d)) as nat);
}

/// A finite number with biased exponent `1023 + k` has an absolute value of
/// at least `2^k`.
pub proof fn lemma_magnitude_lower_bound(d: u64, k: nat)
    requires
        spec_biased_exponent(d) == EXPONENT_BIAS + k,
        spec_is_finite(d),
    ensures
        magnitude_floor(d) >= pow2(k),
{
    lemma_significand_bounds(d);
    lemma2_to64_rest();
    let s = significand(d);
    if k >= 52 {
        let e = (k - 52) as nat;
        lemma_pow2_adds(52, e);
        lemma_pow2_pos(e);
        assert(s * pow2(e) >= pow2(52) * pow2(e)) by (nonlinear_arith)
            requires
                s >= pow2(52),
                pow2(e) > 0,
        ;
    } else {
        let sh = (52 - k) as nat;
        lemma_pow2_adds(k, sh);
        lemma_pow2_pos(sh);
        lemma_div_is_ordered((pow2(k) * pow2(sh)) as int, s as int, pow2(sh) as int);
        lemma_div_by_multiple(pow2(k) as int, pow2(sh) as int);
    }
}

/// The position of the highest set bit of `m`: the `k` with
/// `2^k <= m < 2^(k+1)`, for a positive `m`.
pub open spec fn floor_log2(m: nat) -> nat
    decreases m,
{
    if m <= 1 {
        0
    } else {
        1 + floor_log2(m / 2)
    }
}

/// The pattern of the double that equals the integer `x`. Exact for every
/// `x` with `|x| < 2^53`.
pub open spec fn from_int(x: int) -> u64 {
    if x == 0 {
        0
    } else {
        let m = (if x < 0 {
            -x
        } else {
            x
        }) as nat;
        let k = floor_log2(m);
        let sign = if x < 0 {
            NEGATIVE_ZERO as int
        } else {
            0
        };
        (sign + (EXPONENT_BIAS + k) * HIDDEN_BIT + (m * pow2((52 - k) as nat) - HIDDEN_BIT)) as u64
    }
}

/// The highest set bit of `m` is at `k` when `m` lies between `2^k` and
/// `2^(k+1)`.
pub proof fn lemma_floor_log2(m: nat, k: nat)
    requires
        pow2(k) <= m < pow2(k + 1),
    ensures
        floor_log2(m) == k,
    decreases k,
{
    lemma2_to64();
    if k == 0 {
        assert(pow2(1) == 2);
    } else {
        lemma_pow2_unfold(k);
        lemma_pow2_unfold(k + 1);
        lemma_floor_log2(m / 2, (k - 1) as nat);
    }
}

/// The pattern of the double that equals `x`.
pub fn from_i32(x: i32) -> (d: u64)
    ensures
        d == from_int(x as int),
        is_integer(d),
        truncated(d) == x,
        d != NEGATIVE_ZERO,
{
    if x == 0 {
        proof {
            lemma_below_one(0);
        }
        return 0;
    }
    let negative = x < 0;
    let m: u64 = if negative {
        (-(x as i64)) as u64
    } else {
        x as u64
    };
    let mut k: u64 = 0;
    let mut low: u64 = 1;
    let mut scale: u64 = HIDDEN_BIT;
    proof {
        lemma2_to64();
        lemma2_to64_rest();
    }
    while low <= m / 2
        invariant
            0 < m <= 0x8000_0000,
            k <= 31,
            low == pow2(k as nat),
            scale == pow2((52 - k) as nat),
            0 < low <= m,
        decreases m - low,
    {
        proof {
            lemma_pow2_unfold((k + 1) as nat);
            lemma_pow2_unfold((52 - k) as nat);
            if k >= 31 {
                lemma2_to64();
            }
        }
        low = low * 2;
        scale = scale / 2;
        k = k + 1;
    }
    proof {
        lemma_pow2_unfold((k + 1) as nat);
        lemma_floor_log2(m as nat, k as nat);
        lemma_pow2_adds(k as nat, (52 - k) as nat);
        assert(m * scale >= low * scale) by (nonlinear_arith)
            requires
                m >= low,
                scale > 0,
        ;
        assert(m * scale < 2 * low * scale) by (nonlinear_arith)
            requires
                m < 2 * low,
                scale > 0,
        ;
        assert(2 * low * scale == 2 * (low * scale)) by (nonlinear_arith);
    }
    let fraction = m * scale - HIDDEN_BIT;
    let magnitude_bits = (EXPONENT_BIAS + k) * HIDDEN_BIT + fraction;
    let d = if negative {
        NEGATIVE_ZERO + magnitude_bits
    } else {
        magnitude_bits
    };
    proof {
        lemma_from_int_is_exact(x as int);
    }
    d
}

/// The pattern that `from_int` gives for `x` is that of an integer, reads
/// back as `x`, and has the sign of `x`.
pub proof fn lemma_from_int_is_exact(x: int)
    requires
        -(SIGNIFICAND_LIMIT as int) < x < SIGNIFICAND_LIMIT as int,
    ensures
        is_integer(from_int(x)),
        truncated(from_int(x)) == x,
        from_int(x) != NEGATIVE_ZERO,
        x != 0 ==> spec_biased_exponent(from_int(x)) == EXPONENT_BIAS + floor_log2(
            (if x < 0 {
                -x
            } else {
                x
            }) as nat,
        ),
{
    lemma2_to64();
    lemma2_to64_rest();
    if x == 0 {
        lemma_below_one(0);
    } else {
        let m = (if x < 0 {
            -x
        } else {
            x
        }) as nat;
        let k = floor_log2(m);
        lemma_floor_log2_bounds(m);
        assert(k <= 52) by {
            if k > 52 {
                lemma_pow2_strictly_increases(53, k + 1);
                if k > 53 {
                    lemma_pow2_strictly_increases(53, k);
                }
            }
        }
        let sh = (52 - k) as nat;
        let scale = pow2(sh);
        lemma_pow2_adds(k, sh);
        lemma_pow2_adds(k + 1, sh);
        lemma_pow2_pos(sh);
        assert(m * scale >= pow2(k) * scale) by (nonlinear_arith)
            requires
                m >= pow2(k),
                scale > 0,
        ;
        assert(m * scale < pow2(k + 1) * scale) by (nonlinear_arith)
            requires
                m < pow2(k + 1),
                scale > 0,
        ;
        let fraction = (m * scale - HIDDEN_BIT) as nat;
        let d = from_int(x);
        let sign: int = if x < 0 {
            NEGATIVE_ZERO as int
        } else {
            0
        };
        assert(d == sign + (EXPONENT_BIAS + k) * HIDDEN_BIT + fraction);
        assert(spec_biased_exponent(d) == EXPONENT_BIAS + k);
        assert(spec_mantissa(d) == fraction);
        assert(significand(d) == m * scale);
        assert(exponent(d) == -(sh as int));
        lemma_mod_multiples_basic(m as int, scale as int);
        lemma_div_by_multiple(m as int, scale as int);
        if sh == 0 {
            assert(scale == 1);
        }
        assert(magnitude_floor(d) == m);
    }
}

/// A positive `m` lies between `2^k` and `2^(k+1)`, for the `k` that
/// `floor_log2` gives.
pub proof fn lemma_floor_log2_bounds(m: nat)
    requires
        m > 0,
    ensures
        pow2(floor_log2(m)) <= m < pow2(floor_log2(m) + 1),
    decreases m,
{
    lemma2_to64();
    if m > 1 {
        lemma_floor_log2_bounds(m / 2);
        lemma_pow2_unfold(floor_log2(m));
        lemma_pow2_unfold(floor_log2(m) + 1);
    }
}

/// A finite number with biased exponent `1023 + k`, `k <= 52`, has an
/// absolute value below `2^(k+1)`.
pub proof fn lemma_magnitude_upper_bound(d: u64, k: nat)
    requires
        spec_biased_exponent(d) == EXPONENT_BIAS + k,
        k <= 52,
    ensures
        magnitude_floor(d) < pow2(k + 1),
{
    lemma_significand_bounds(d);
    lemma2_to64_rest();
    let s = significand(d);
    let sh = (52 - k) as nat;
    lemma_pow2_adds(sh, k + 1);
    lemma_pow2_pos(sh);
    if sh == 0 {
        lemma2_to64();
    } else {
        lemma_multiply_divide_lt(s as int, pow2(sh) as int, pow2(k + 1) as int);
    }
}

/// The value of `d` as a 32-bit integer: rounded toward zero, then held to
/// the integers' range. A NaN gives zero.
pub open spec fn saturated_i32(d: u64) -> i32 {
    if spec_is_nan(d) {
        0
    } else if spec_is_infinite(d) {
        if spec_is_negative(d) {
            i32::MIN
        } else {
            i32::MAX
        }
    } else if truncated(d) < i32::MIN {
        i32::MIN
    } else if truncated(d) > i32::MAX {
        i32::MAX
    } else {
        truncated(d) as i32
    }
}

/// The value of `d` as a 32-bit integer: rounded toward zero, then held to
/// the integers' range. A NaN gives zero.
pub fn to_i32(d: u64) -> (r: i32)
    ensures
        r == saturated_i32(d),
{
    let negative = is_negative(d);
    let biased = biased_exponent(d);
    if biased == EXPONENT_SPECIAL && mantissa(d) != 0 {
        return 0;
    }
    if biased < EXPONENT_BIAS {
        proof {
            lemma_below_one(d);
        }
        return 0;
    }
    let k = biased - EXPONENT_BIAS;
    if k >= 31 {
        proof {
            lemma2_to64();
            if biased != EXPONENT_SPECIAL {
                lemma_magnitude_lower_bound(d, k as nat);
                if k > 31 {
                    lemma_pow2_strictly_increases(31, k as nat);
                }
            }
        }
        return if negative {
            i32::MIN
        } else {
            i32::MAX
        };
    }
    let unit = power_of_two(52 - k);
    let whole = mantissa(d) + HIDDEN_BIT;
    let magnitude = whole / unit;
    proof {
        lemma2_to64();
        lemma_magnitude_upper_bound(d, k as nat);
        if k < 30 {
            lemma_pow2_strictly_increases((k + 1) as nat, 31);
        }
        assert(magnitude == magnitude_floor(d));
    }
    if negative {
        -(magnitude as i32)
    } else {
        magnitude as i32
    }
}

} // verus!
