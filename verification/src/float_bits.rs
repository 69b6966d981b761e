//! IEEE-754 binary64 values held as their bit patterns.
//!
//! The Core Audio ABI carries sample rates, sample times, and value
//! ranges as `Float64`. The framework never does floating-point
//! arithmetic on them: it stores, compares, copies, and serialises
//! them, and in three places converts one to an integer (a sample
//! rate to a whole frame count, a sample time to the frame it falls
//! in). [`F64Bits`] holds such a value as its 64-bit pattern, and this
//! module gives exact integer definitions of those conversions.

use vstd::prelude::*;
use vstd::arithmetic::power2::{pow2, lemma2_to64, lemma2_to64_rest, lemma_pow2_pos, lemma_pow2_strictly_increases};
use vstd::bits::{lemma_u64_shl_is_mul, lemma_u64_shr_is_div};

verus! {

/// An IEEE-754 binary64 value, held as its bit pattern
/// (`f64::to_bits`). Two values are equal iff their bit patterns are.
#[derive(Copy, Clone, PartialEq, Eq, Hash, Debug, Structural)]
pub struct F64Bits(pub u64);

impl F64Bits {
    /// Wrap a bit pattern (`f64::to_bits`).
    pub fn from_bits(bits: u64) -> (r: Self)
        ensures
            r.0 == bits,
    {
        F64Bits(bits)
    }

    /// The bit pattern (`f64::from_bits` rebuilds the value).
    pub fn to_bits(self) -> (r: u64)
        ensures
            r == self.0,
    {
        self.0
    }
}

/// `true` iff the sign bit is set.
pub open spec fn f64_negative(b: u64) -> bool {
    b >= 0x8000_0000_0000_0000
}

/// The 11-bit biased exponent field.
pub open spec fn f64_exponent(b: u64) -> nat {
    ((b as nat) / 0x10_0000_0000_0000) % 2048
}

/// The 52-bit fraction field.
pub open spec fn f64_fraction(b: u64) -> nat {
    (b as nat) % 0x10_0000_0000_0000
}

/// `true` iff the pattern is a NaN.
pub open spec fn f64_is_nan(b: u64) -> bool {
    f64_exponent(b) == 2047 && f64_fraction(b) != 0
}

/// `true` iff the pattern is an infinity.
pub open spec fn f64_is_infinite(b: u64) -> bool {
    f64_exponent(b) == 2047 && f64_fraction(b) == 0
}

/// The significand of a finite value: the fraction with the implicit
/// leading one for normal numbers.
pub open spec fn f64_significand(b: u64) -> nat {
    if f64_exponent(b) == 0 {
        f64_fraction(b)
    } else {
        f64_fraction(b) + 0x10_0000_0000_0000
    }
}

/// The effective biased exponent of a finite value (subnormals use
/// the same scale as exponent `1`). A finite value's magnitude is
/// `significand * 2^(scale - 1075)`.
pub open spec fn f64_scale(b: u64) -> nat {
    if f64_exponent(b) == 0 {
        1
    } else {
        f64_exponent(b)
    }
}

/// The magnitude of a finite value, rounded down to an integer.
pub open spec fn f64_trunc_magnitude(b: u64) -> nat {
    if f64_scale(b) >= 1075 {
        f64_significand(b) * pow2((f64_scale(b) - 1075) as nat)
    } else {
        f64_significand(b) / pow2((1075 - f64_scale(b)) as nat)
    }
}

/// The magnitude of a finite value, rounded up to an integer.
pub open spec fn f64_ceil_magnitude(b: u64) -> nat {
    if f64_scale(b) >= 1075 {
        f64_significand(b) * pow2((f64_scale(b) - 1075) as nat)
    } else if f64_significand(b) % pow2((1075 - f64_scale(b)) as nat) == 0 {
        f64_significand(b) / pow2((1075 - f64_scale(b)) as nat)
    } else {
        f64_significand(b) / pow2((1075 - f64_scale(b)) as nat) + 1
    }
}

/// The floor of a finite value.
pub open spec fn f64_floor(b: u64) -> int {
    if f64_negative(b) {
        -(f64_ceil_magnitude(b) as int)
    } else {
        f64_trunc_magnitude(b) as int
    }
}

/// The value of `x as uN` for an unsigned target whose maximum is
/// `max`: truncation toward zero, saturating at `0` and `max`, with
/// NaN mapping to `0`.
pub open spec fn f64_to_unsigned(b: u64, max: nat) -> nat {
    if f64_is_nan(b) || f64_negative(b) {
        0
    } else if f64_is_infinite(b) {
        max
    } else if f64_trunc_magnitude(b) > max {
        max
    } else {
        f64_trunc_magnitude(b)
    }
}

/// The value of `x.floor() as i64`: the floor, saturating at the
/// `i64` range, with NaN mapping to `0`.
pub open spec fn f64_floor_to_i64(b: u64) -> int {
    if f64_is_nan(b) {
        0
    } else if f64_is_infinite(b) {
        if f64_negative(b) {
            i64::MIN as int
        } else {
            i64::MAX as int
        }
    } else if f64_floor(b) < i64::MIN {
        i64::MIN as int
    } else if f64_floor(b) > i64::MAX {
        i64::MAX as int
    } else {
        f64_floor(b)
    }
}

proof fn lemma_significand_bound(b: u64)
    ensures
        f64_significand(b) < 0x20_0000_0000_0000,
        f64_exponent(b) != 0 ==> f64_significand(b) >= 0x10_0000_0000_0000,
{
}

/// A magnitude with a scale at or past `1075 + e` is at least
/// `2^(52 + e)`.
proof fn lemma_large_magnitude(b: u64, e: nat)
    requires
        f64_exponent(b) >= 1075 + e,
    ensures
        f64_trunc_magnitude(b) >= pow2(52 + e),
        f64_ceil_magnitude(b) == f64_trunc_magnitude(b),
{
    let s = f64_significand(b);
    let k = (f64_scale(b) - 1075) as nat;
    lemma_significand_bound(b);
    lemma2_to64();
    lemma2_to64_rest();
    lemma_pow2_pos(k);
    lemma_pow2_pos(e);
    if k > e {
        lemma_pow2_strictly_increases(e, k);
    }
    vstd::arithmetic::power2::lemma_pow2_adds(52, e);
    assert(s >= pow2(52));
    assert(pow2(k) >= pow2(e));
    vstd::arithmetic::mul::lemma_mul_inequality(pow2(52) as int, s as int, pow2(e) as int);
    vstd::arithmetic::mul::lemma_mul_inequality(pow2(e) as int, pow2(k) as int, s as int);
    vstd::arithmetic::mul::lemma_mul_is_commutative(pow2(e) as int, s as int);
}

/// Split a bit pattern into (negative, exponent, fraction).
fn decode(b: u64) -> (r: (bool, u64, u64))
    ensures
        r.0 == f64_negative(b),
        r.1 == f64_exponent(b),
        r.2 == f64_fraction(b),
{
    (b >= 0x8000_0000_0000_0000, (b / 0x10_0000_0000_0000) % 2048, b % 0x10_0000_0000_0000)
}

/// The truncated magnitude of a finite value whose scale is below
/// `1075 + 11`, which therefore fits in 64 bits.
fn trunc_magnitude(b: u64, exponent: u64, fraction: u64) -> (r: u64)
    requires
        exponent == f64_exponent(b),
        fraction == f64_fraction(b),
        exponent < 1086,
    ensures
        r == f64_trunc_magnitude(b),
        r < 0x8000_0000_0000_0000,
        (r as nat) * pow2((1075 - f64_scale(b)) as nat) <= f64_significand(b) || f64_scale(b)
            >= 1075,
{
    proof {
        lemma2_to64();
        lemma2_to64_rest();
    }
    let sig: u64 = if exponent == 0 {
        fraction
    } else {
        fraction + 0x10_0000_0000_0000
    };
    let scale: u64 = if exponent == 0 {
        1
    } else {
        exponent
    };
    if scale >= 1075 {
        let shift: u64 = scale - 1075;
        assert(shift <= 10);
        proof {
            if shift < 10 {
                lemma_pow2_strictly_increases(shift as nat, 10);
            }
        }
        assert(sig * pow2(shift as nat) < 0x20_0000_0000_0000 * pow2(10)) by {
            vstd::arithmetic::mul::lemma_mul_strict_inequality(
                sig as int,
                0x20_0000_0000_0000,
                pow2(shift as nat) as int,
            );
            lemma_pow2_pos(shift as nat);
            vstd::arithmetic::mul::lemma_mul_inequality(
                pow2(shift as nat) as int,
                pow2(10) as int,
                0x20_0000_0000_0000,
            );
            vstd::arithmetic::mul::lemma_mul_is_commutative(
                pow2(shift as nat) as int,
                0x20_0000_0000_0000,
            );
        }
        proof {
            lemma_u64_shl_is_mul(sig, shift);
        }
        sig << shift
    } else {
        let k: u64 = 1075 - scale;
        if k >= 64 {
            proof {
                lemma_pow2_strictly_increases(53, k as nat);
            }
            assert(sig as nat / pow2(k as nat) == 0) by {
                vstd::arithmetic::div_mod::lemma_basic_div(sig as int, pow2(k as nat) as int);
            }
            0
        } else {
            proof {
                lemma_u64_shr_is_div(sig, k);
                lemma_pow2_pos(k as nat);
            }
            assert((sig as nat / pow2(k as nat)) * pow2(k as nat) <= sig) by {
                vstd::arithmetic::div_mod::lemma_fundamental_div_mod(sig as int, pow2(k as nat) as int);
                vstd::arithmetic::mul::lemma_mul_is_commutative(
                    (sig as nat / pow2(k as nat)) as int,
                    pow2(k as nat) as int,
                );
            }
            assert(sig as nat / pow2(k as nat) <= sig) by {
                vstd::arithmetic::div_mod::lemma_div_is_ordered_by_denominator(sig as int, 1, pow2(k as nat) as int);
            }
            sig >> k
        }
    }
}

/// `true` iff the pattern encodes a zero (`+0.0` or `-0.0`).
pub open spec fn f64_is_zero(b: u64) -> bool {
    b % 0x8000_0000_0000_0000 == 0
}

/// IEEE-754 equality (`==` on `f64`): NaN equals nothing, the two
/// zeros are equal, and every other value equals exactly itself.
pub open spec fn f64_equal(a: u64, b: u64) -> bool {
    !f64_is_nan(a) && !f64_is_nan(b) && (a == b || (f64_is_zero(a) && f64_is_zero(b)))
}

impl F64Bits {
    /// IEEE-754 equality of the two values (`==` on `f64`).
    pub fn ieee_eq(self, other: F64Bits) -> (r: bool)
        ensures
            r == f64_equal(self.0, other.0),
    {
        let (_, ea, fa) = decode(self.0);
        let (_, eb, fb) = decode(other.0);
        if (ea == 2047 && fa != 0) || (eb == 2047 && fb != 0) {
            return false;
        }
        self.0 == other.0 || (self.0 % 0x8000_0000_0000_0000 == 0 && other.0
            % 0x8000_0000_0000_0000 == 0)
    }
}

/// The position of a non-NaN value on the real line, as an integer
/// that orders the same way: the magnitude bits, negated for a set
/// sign bit (so both zeros sit at `0`).
pub open spec fn f64_order_key(b: u64) -> int {
    let magnitude = (b as int) % 0x8000_0000_0000_0000;
    if f64_negative(b) {
        -magnitude
    } else {
        magnitude
    }
}

/// IEEE-754 `<=` on `f64`: false when either side is NaN, otherwise
/// the order of the values on the extended real line.
pub open spec fn f64_le(a: u64, b: u64) -> bool {
    !f64_is_nan(a) && !f64_is_nan(b) && f64_order_key(a) <= f64_order_key(b)
}

impl F64Bits {
    /// IEEE-754 `<=` of the two values (`<=` on `f64`).
    pub fn ieee_le(self, other: F64Bits) -> (r: bool)
        ensures
            r == f64_le(self.0, other.0),
    {
        let (_, ea, fa) = decode(self.0);
        let (_, eb, fb) = decode(other.0);
        if (ea == 2047 && fa != 0) || (eb == 2047 && fb != 0) {
            return false;
        }
        let ma = self.0 % 0x8000_0000_0000_0000;
        let mb = other.0 % 0x8000_0000_0000_0000;
        let na = self.0 >= 0x8000_0000_0000_0000;
        let nb = other.0 >= 0x8000_0000_0000_0000;
        if na && nb {
            mb <= ma
        } else if na {
            true
        } else if nb {
            ma == 0 && mb == 0
        } else {
            ma <= mb
        }
    }
}

/// `x as u64` for the value `x` with bit pattern `b`.
pub fn f64_as_u64(b: F64Bits) -> (r: u64)
    ensures
        r == f64_to_unsigned(b.0, u64::MAX as nat),
{
    let (negative, exponent, fraction) = decode(b.0);
    if exponent == 2047 {
        if fraction != 0 || negative {
            return 0;
        }
        return u64::MAX;
    }
    if negative {
        return 0;
    }
    if exponent >= 1087 {
        proof {
            lemma_large_magnitude(b.0, 12);
            lemma2_to64();
            lemma2_to64_rest();
        }
        return u64::MAX;
    }
    if exponent == 1086 {
        proof {
            lemma_large_magnitude(b.0, 11);
            lemma2_to64();
            lemma2_to64_rest();
        }
        // The magnitude lies in [2^63, 2^64): one shift left of the
        // 53-bit significand by 11.
        let sig: u64 = fraction + 0x10_0000_0000_0000;
        proof {
            lemma2_to64();
            assert(sig * pow2(11) <= u64::MAX);
            lemma_u64_shl_is_mul(sig, 11);
        }
        return sig << 11;
    }
    trunc_magnitude(b.0, exponent, fraction)
}

/// `x as u32` for the value `x` with bit pattern `b`.
pub fn f64_as_u32(b: F64Bits) -> (r: u32)
    ensures
        r == f64_to_unsigned(b.0, u32::MAX as nat),
{
    let wide = f64_as_u64(b);
    if wide > u32::MAX as u64 {
        u32::MAX
    } else {
        wide as u32
    }
}

/// `x as usize` for the value `x` with bit pattern `b`.
pub fn f64_as_usize(b: F64Bits) -> (r: usize)
    ensures
        r == f64_to_unsigned(b.0, usize::MAX as nat),
{
    let wide = f64_as_u64(b);
    if wide > usize::MAX as u64 {
        usize::MAX
    } else {
        wide as usize
    }
}

/// `x.floor() as i64` for the value `x` with bit pattern `b`.
pub fn f64_floor_as_i64(b: F64Bits) -> (r: i64)
    ensures
        r == f64_floor_to_i64(b.0),
{
    let (negative, exponent, fraction) = decode(b.0);
    if exponent == 2047 {
        if fraction != 0 {
            return 0;
        }
        return if negative {
            i64::MIN
        } else {
            i64::MAX
        };
    }
    if exponent >= 1086 {
        proof {
            lemma_large_magnitude(b.0, 11);
            lemma2_to64();
            lemma2_to64_rest();
        }
        return if negative {
            i64::MIN
        } else {
            i64::MAX
        };
    }
    let t = trunc_magnitude(b.0, exponent, fraction);
    if !negative {
        return t as i64;
    }
    // Negative: the floor is minus the ceiling of the magnitude.
    let scale: u64 = if exponent == 0 {
        1
    } else {
        exponent
    };
    let sig: u64 = if exponent == 0 {
        fraction
    } else {
        fraction + 0x10_0000_0000_0000
    };
    if scale >= 1075 {
        return -(t as i64);
    }
    let k: u64 = 1075 - scale;
    proof {
        lemma2_to64();
        lemma2_to64_rest();
        lemma_pow2_pos(k as nat);
    }
    let exact: bool = if k >= 64 {
        proof {
            lemma_pow2_strictly_increases(53, k as nat);
            vstd::arithmetic::div_mod::lemma_small_mod(sig as nat, pow2(k as nat));
        }
        sig == 0
    } else {
        proof {
            lemma_u64_shl_is_mul(t, k);
        }
        let back: u64 = t << k;
        proof {
            vstd::arithmetic::div_mod::lemma_fundamental_div_mod(sig as int, pow2(k as nat) as int);
            vstd::arithmetic::mul::lemma_mul_is_commutative(t as int, pow2(k as nat) as int);
        }
        back == sig
    };
    if exact {
        -(t as i64)
    } else {
        -(t as i64) - 1
    }
}

/// The value of `x.floor() as i64` reduced Euclidean-modulo `m`.
pub fn f64_floor_rem_euclid(b: F64Bits, m: usize) -> (r: usize)
    requires
        m > 0,
    ensures
        r as int == f64_floor_to_i64(b.0) % (m as int),
        r < m,
{
    let frame = f64_floor_as_i64(b);
    if frame >= 0 {
        ((frame as u64) % (m as u64)) as usize
    } else {
        let neg: u64 = (-(frame + 1)) as u64;
        let r: u64 = neg % (m as u64);
        proof {
            let f = frame as int;
            let mm = m as int;
            vstd::arithmetic::div_mod::lemma_fundamental_div_mod(neg as int, mm);
            let q = (neg as int) / mm;
            assert(f == -(neg as int) - 1);
            assert(f == (-q - 1) * mm + (mm - 1 - r)) by (nonlinear_arith)
                requires
                    f == -(neg as int) - 1,
                    neg as int == mm * q + r as int,
            ;
            vstd::arithmetic::div_mod::lemma_mod_multiples_vanish(-q - 1, mm - 1 - r as int, mm);
            vstd::arithmetic::div_mod::lemma_small_mod((mm - 1 - r as int) as nat, mm as nat);
        }
        (m as u64 - 1 - r) as usize
    }
}

} // verus!
