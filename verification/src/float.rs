//! IEEE 754 numbers by their bits.
//!
//! The system reports coordinates and scales as binary floating point. They are
//! held here as bit patterns, compared and widened exactly. A finite value is
//! described by its magnitude, an integer count of the smallest positive number
//! of its format, and by its sign.

use vstd::arithmetic::power2::{lemma_pow2_adds, lemma_pow2_pos, pow2};
use vstd::prelude::*;

verus! {

/// A number in the 32-bit binary format.
#[derive(Clone, Copy, Debug, PartialEq, Eq, Hash)]
pub struct Float32 {
    pub bits: u32,
}

/// A number in the 64-bit binary format.
#[derive(Clone, Copy, Debug, PartialEq, Eq, Hash)]
pub struct Float64 {
    pub bits: u64,
}

impl Float32 {
    /// The sign bit.
    pub open spec fn negative(self) -> bool {
        self.bits >= 0x8000_0000
    }

    /// The biased exponent, 0 to 255.
    pub open spec fn exponent(self) -> nat {
        ((self.bits / 0x80_0000) % 256) as nat
    }

    /// The stored part of the significand, below 2^23.
    pub open spec fn fraction(self) -> nat {
        (self.bits % 0x80_0000) as nat
    }

    pub open spec fn is_nan(self) -> bool {
        self.exponent() == 255 && self.fraction() != 0
    }

    pub open spec fn is_infinite(self) -> bool {
        self.exponent() == 255 && self.fraction() == 0
    }

    pub open spec fn is_finite(self) -> bool {
        self.exponent() < 255
    }

    /// The absolute value of a finite number, in units of 2^-149.
    pub open spec fn magnitude(self) -> nat {
        if self.exponent() == 0 {
            self.fraction()
        } else {
            (self.fraction() + 0x80_0000) * pow2((self.exponent() - 1) as nat)
        }
    }

    /// The number equals zero; both zeros do, and no NaN does.
    pub open spec fn equals_zero(self) -> bool {
        self.is_finite() && self.magnitude() == 0
    }

    /// The number equals one.
    pub open spec fn equals_one(self) -> bool {
        self.is_finite() && !self.negative() && self.magnitude() == pow2(149)
    }

    /// The number is above one; no NaN is.
    pub open spec fn above_one(self) -> bool {
        &&& !self.negative()
        &&& !self.is_nan()
        &&& self.is_infinite() || self.magnitude() > pow2(149)
    }
}

impl Float64 {
    /// The sign bit.
    pub open spec fn negative(self) -> bool {
        self.bits >= 0x8000_0000_0000_0000
    }

    /// The biased exponent, 0 to 2047.
    pub open spec fn exponent(self) -> nat {
        ((self.bits / 0x10_0000_0000_0000) % 2048) as nat
    }

    /// The stored part of the significand, below 2^52.
    pub open spec fn fraction(self) -> nat {
        (self.bits % 0x10_0000_0000_0000) as nat
    }

    pub open spec fn is_nan(self) -> bool {
        self.exponent() == 2047 && self.fraction() != 0
    }

    pub open spec fn is_infinite(self) -> bool {
        self.exponent() == 2047 && self.fraction() == 0
    }

    pub open spec fn is_finite(self) -> bool {
        self.exponent() < 2047
    }

    /// The absolute value of a finite number, in units of 2^-1074.
    pub open spec fn magnitude(self) -> nat {
        if self.exponent() == 0 {
            self.fraction()
        } else {
            (self.fraction() + 0x10_0000_0000_0000) * pow2((self.exponent() - 1) as nat)
        }
    }

    /// The number lies in the half-open range from zero up to `limit`. Negative
    /// zero does if any number does; no NaN does.
    pub open spec fn in_range(self, limit: u32) -> bool {
        &&& self.is_finite()
        &&& !self.negative() || self.magnitude() == 0
        &&& self.magnitude() < limit * pow2(1074)
    }
}

/// The 64-bit number with the given sign bit, exponent and fraction.
pub open spec fn from_parts(negative: bool, exponent: nat, fraction: nat) -> Float64 {
    let sign: int = if negative {
        0x8000_0000_0000_0000
    } else {
        0
    };
    Float64 { bits: (sign + exponent * 0x10_0000_0000_0000 + fraction) as u64 }
}

/// How many times a fraction is doubled until it reaches 2^23.
pub open spec fn normalizing_shift(fraction: nat) -> nat
    decreases 0x100_0000 - fraction,
{
    if 0 < fraction < 0x80_0000 {
        1 + normalizing_shift(fraction * 2)
    } else {
        0
    }
}

impl Float32 {
    /// The same number in the 64-bit format. A NaN stays a NaN: it keeps its sign
    /// and payload and becomes quiet.
    pub open spec fn widened(self) -> Float64 {
        let f = self.fraction();
        if self.is_infinite() {
            from_parts(self.negative(), 2047, 0)
        } else if self.is_nan() {
            from_parts(
                self.negative(),
                2047,
                (if f >= 0x40_0000 {
                    f
                } else {
                    f + 0x40_0000
                }) * 0x2000_0000,
            )
        } else if self.exponent() > 0 {
            from_parts(self.negative(), self.exponent() + 896, f * 0x2000_0000)
        } else if f == 0 {
            from_parts(self.negative(), 0, 0)
        } else {
            let shift = normalizing_shift(f);
            from_parts(
                self.negative(),
                (897 - shift) as nat,
                ((f * pow2(shift) - 0x80_0000) * 0x2000_0000) as nat,
            )
        }
    }
}

/// The two numbers are the same: they agree in sign, and in value, or in being
/// an infinity or a NaN. One unit of the smaller format is 2^925 units of the
/// larger.
pub open spec fn same_number(narrow: Float32, wide: Float64) -> bool {
    &&& wide.negative() == narrow.negative()
    &&& wide.is_nan() == narrow.is_nan()
    &&& wide.is_infinite() == narrow.is_infinite()
    &&& narrow.is_finite() ==> wide.magnitude() == narrow.magnitude() * pow2(925)
}

impl Float32 {
    /// Whether the number equals zero.
    pub fn is_zero(self) -> (r: bool)
        ensures
            r == self.equals_zero(),
    {
        proof {
            if self.exponent() > 0 {
                lemma_pow2_pos((self.exponent() - 1) as nat);
                assert((self.fraction() + 0x80_0000) * pow2((self.exponent() - 1) as nat) > 0)
                    by (nonlinear_arith)
                    requires
                        pow2((self.exponent() - 1) as nat) > 0,
                        self.fraction() >= 0,
                ;
            }
        }
        self.bits % 0x8000_0000 == 0
    }

    /// Whether the number equals one.
    pub fn is_one(self) -> (r: bool)
        ensures
            r == self.equals_one(),
    {
        proof {
            lemma_magnitude_against_one(self);
        }
        self.bits == 0x3f80_0000
    }

    /// Whether the number is above one.
    pub fn is_above_one(self) -> (r: bool)
        ensures
            r == self.above_one(),
    {
        proof {
            lemma_magnitude_against_one(self);
        }
        self.bits > 0x3f80_0000 && self.bits <= 0x7f80_0000
    }

    /// The same number in the 64-bit format.
    pub fn widen(self) -> (r: Float64)
        ensures
            r == self.widened(),
            same_number(self, r),
    {
        proof {
            lemma_widening_keeps_the_number(self);
        }
        let negative: bool = self.bits >= 0x8000_0000;
        let exponent: u64 = ((self.bits / 0x80_0000) % 256) as u64;
        let fraction: u64 = (self.bits % 0x80_0000) as u64;
        if exponent == 255 {
            let payload: u64 = if fraction == 0 {
                0
            } else if fraction >= 0x40_0000 {
                fraction * 0x2000_0000
            } else {
                (fraction + 0x40_0000) * 0x2000_0000
            };
            return assemble(negative, 2047, payload);
        }
        if exponent > 0 {
            return assemble(negative, exponent + 896, fraction * 0x2000_0000);
        }
        if fraction == 0 {
            return assemble(negative, 0, 0);
        }
        let mut significand: u64 = fraction;
        let mut shift: u64 = 0;
        proof {
            lemma_normalizing_shift(fraction as nat);
            vstd::arithmetic::power2::lemma2_to64();
        }
        while significand < 0x80_0000
            invariant
                0 < fraction < 0x80_0000,
                0 < significand < 0x100_0000,
                significand == fraction * pow2(shift as nat),
                shift + normalizing_shift(significand as nat) == normalizing_shift(fraction as nat),
                normalizing_shift(fraction as nat) <= 23,
            decreases 0x100_0000 - significand,
        {
            proof {
                vstd::arithmetic::power2::lemma2_to64();
                lemma_pow2_adds(shift as nat, 1);
                assert(fraction * (pow2(shift as nat) * 2) == (fraction * pow2(shift as nat)) * 2)
                    by (nonlinear_arith);
            }
            significand = significand * 2;
            shift = shift + 1;
        }
        assemble(negative, 897 - shift, (significand - 0x80_0000) * 0x2000_0000)
    }
}

impl Float64 {
    /// Whether the number lies in the half-open range from zero up to `limit`.
    pub fn is_in_range(self, limit: u32) -> (r: bool)
        ensures
            r == self.in_range(limit),
    {
        if self.bits == 0x8000_0000_0000_0000 {
            proof {
                lemma_limit_positive(limit);
            }
            return limit > 0;
        }
        if self.bits > 0x8000_0000_0000_0000 {
            proof {
                lemma_magnitude_nonzero(self);
            }
            return false;
        }
        let exponent: u64 = self.bits / 0x10_0000_0000_0000;
        let fraction: u64 = self.bits % 0x10_0000_0000_0000;
        if exponent == 2047 {
            return false;
        }
        if exponent < 1023 {
            proof {
                lemma_limit_positive(limit);
                lemma_below_one(self);
            }
            return limit > 0;
        }
        if exponent >= 1055 {
            proof {
                lemma_at_least_two_to_32(self, limit);
            }
            return false;
        }
        let significand: u64 = fraction + 0x10_0000_0000_0000;
        let shift: u64 = 1075 - exponent;
        let whole: u64 = significand >> shift;
        proof {
            lemma_whole_part(self, significand, shift, limit);
        }
        whole < limit as u64
    }
}

/// The 64-bit number with the given sign bit, exponent and fraction.
fn assemble(negative: bool, exponent: u64, fraction: u64) -> (r: Float64)
    requires
        exponent < 2048,
        fraction < 0x10_0000_0000_0000,
    ensures
        r == from_parts(negative, exponent as nat, fraction as nat),
{
    let sign: u64 = if negative {
        0x8000_0000_0000_0000
    } else {
        0
    };
    Float64 { bits: sign + exponent * 0x10_0000_0000_0000 + fraction }
}

proof fn lemma_from_parts(negative: bool, exponent: nat, fraction: nat)
    requires
        exponent < 2048,
        fraction < 0x10_0000_0000_0000,
    ensures
        from_parts(negative, exponent, fraction).negative() == negative,
        from_parts(negative, exponent, fraction).exponent() == exponent,
        from_parts(negative, exponent, fraction).fraction() == fraction,
{
}

proof fn lemma_normalizing_shift(fraction: nat)
    requires
        0 < fraction < 0x100_0000,
    ensures
        0x80_0000 <= fraction * pow2(normalizing_shift(fraction)) < 0x100_0000,
        normalizing_shift(fraction) <= 23,
    decreases 0x100_0000 - fraction,
{
    vstd::arithmetic::power2::lemma2_to64();
    if fraction < 0x80_0000 {
        lemma_normalizing_shift(fraction * 2);
        let shift = normalizing_shift(fraction * 2);
        lemma_pow2_adds(1, shift);
        assert(fraction * (2 * pow2(shift)) == (fraction * 2) * pow2(shift)) by (nonlinear_arith);
        if shift >= 23 {
            lemma_pow2_grows(23, shift);
            assert((fraction * 2) * pow2(shift) >= 2 * 0x80_0000) by (nonlinear_arith)
                requires
                    fraction >= 1,
                    pow2(shift) >= 0x80_0000,
            ;
        }
    } else {
        assert(fraction * pow2(0) == fraction) by (nonlinear_arith)
            requires
                pow2(0) == 1,
        ;
    }
}

/// Widening keeps the number: its sign, its value, and whether it is an infinity
/// or a NaN.
pub proof fn lemma_widening_keeps_the_number(x: Float32)
    ensures
        same_number(x, x.widened()),
{
    let f = x.fraction();
    let e = x.exponent();
    if e == 255 {
        if f == 0 {
            lemma_from_parts(x.negative(), 2047, 0);
        } else if f >= 0x40_0000 {
            lemma_from_parts(x.negative(), 2047, f * 0x2000_0000);
        } else {
            lemma_from_parts(x.negative(), 2047, (f + 0x40_0000) * 0x2000_0000);
        }
    } else if e > 0 {
        lemma_from_parts(x.negative(), e + 896, f * 0x2000_0000);
        lemma_rescaled(f + 0x80_0000, (e - 1) as nat, (e + 895) as nat);
    } else if f == 0 {
        lemma_from_parts(x.negative(), 0, 0);
        assert(0 * pow2(925) == 0) by (nonlinear_arith);
    } else {
        lemma_normalizing_shift(f);
        let shift = normalizing_shift(f);
        let s = f * pow2(shift);
        lemma_from_parts(
            x.negative(),
            (897 - shift) as nat,
            ((s - 0x80_0000) * 0x2000_0000) as nat,
        );
        lemma_pow2_adds(shift, (925 - shift) as nat);
        assert(f * (pow2(shift) * pow2((925 - shift) as nat)) == s * pow2((925 - shift) as nat))
            by (nonlinear_arith)
            requires
                s == f * pow2(shift),
        ;
        lemma_pow2_adds(29, (896 - shift) as nat);
        vstd::arithmetic::power2::lemma2_to64();
        let p = pow2((896 - shift) as nat);
        assert(s * (0x2000_0000 * p) == (s * 0x2000_0000) * p) by (nonlinear_arith);
    }
}

/// Zero has no bit set below the sign, one has the bits of one, and the numbers above
/// one are those whose bits lie above, up to the infinity.
pub proof fn lemma_comparisons_by_bits(x: Float32)
    ensures
        x.equals_zero() <==> x.bits % 0x8000_0000 == 0,
        x.equals_one() <==> x.bits == 0x3f80_0000,
        x.above_one() <==> 0x3f80_0000 < x.bits <= 0x7f80_0000,
{
    lemma_magnitude_against_one(x);
    if x.exponent() > 0 {
        let s = x.fraction() + 0x80_0000;
        let p = pow2((x.exponent() - 1) as nat);
        lemma_pow2_pos((x.exponent() - 1) as nat);
        assert(s * p > 0) by (nonlinear_arith)
            requires
                s > 0,
                p > 0,
        ;
    }
}

/// Widening loses nothing: numbers that are not NaN widen to the same number
/// only where they are the same.
pub proof fn lemma_widening_loses_nothing(a: Float32, b: Float32)
    requires
        !a.is_nan(),
        a.widened() == b.widened(),
    ensures
        a == b,
{
    lemma_widening_keeps_the_number(a);
    lemma_widening_keeps_the_number(b);
    if a.is_finite() {
        let p = pow2(925);
        lemma_pow2_pos(925);
        let m = a.magnitude();
        let n = b.magnitude();
        assert(m == n) by (nonlinear_arith)
            requires
                m * p == n * p,
                p > 0,
        ;
        if a.exponent() < b.exponent() {
            lemma_magnitude_grows(a, b);
        } else if b.exponent() < a.exponent() {
            lemma_magnitude_grows(b, a);
        } else if a.exponent() > 0 {
            let q = pow2((a.exponent() - 1) as nat);
            lemma_pow2_pos((a.exponent() - 1) as nat);
            let s = a.fraction() + 0x80_0000;
            let t = b.fraction() + 0x80_0000;
            assert(s == t) by (nonlinear_arith)
                requires
                    s * q == t * q,
                    q > 0,
            ;
        }
    }
}

proof fn lemma_magnitude_grows(a: Float32, b: Float32)
    requires
        a.exponent() < b.exponent(),
    ensures
        a.magnitude() < b.magnitude(),
{
    vstd::arithmetic::power2::lemma2_to64();
    let q = pow2((b.exponent() - 1) as nat);
    let t = b.fraction() + 0x80_0000;
    lemma_pow2_pos((b.exponent() - 1) as nat);
    assert(t * q >= 0x80_0000 * q) by (nonlinear_arith)
        requires
            t >= 0x80_0000,
    ;
    if a.exponent() == 0 {
    } else {
        let p = pow2((a.exponent() - 1) as nat);
        let s = a.fraction() + 0x80_0000;
        lemma_pow2_pos((a.exponent() - 1) as nat);
        lemma_pow2_adds((a.exponent() - 1) as nat, 1);
        lemma_pow2_grows(a.exponent(), (b.exponent() - 1) as nat);
        assert(s * p < 0x80_0000 * (p * 2)) by (nonlinear_arith)
            requires
                s < 0x100_0000,
                p > 0,
        ;
    }
}

proof fn lemma_rescaled(significand: nat, narrow: nat, wide: nat)
    requires
        wide == narrow + 896,
    ensures
        (significand * 0x2000_0000) * pow2(wide) == (significand * pow2(narrow)) * pow2(925),
{
    lemma_pow2_adds(narrow, 925);
    lemma_pow2_adds(29, wide);
    vstd::arithmetic::power2::lemma2_to64();
    let a = pow2(narrow);
    let b = pow2(925);
    let c = pow2(wide);
    assert((significand * 0x2000_0000) * c == (significand * a) * b) by (nonlinear_arith)
        requires
            0x2000_0000 * c == a * b,
    ;
}

proof fn lemma_pow2_grows(a: nat, b: nat)
    requires
        a <= b,
    ensures
        0 < pow2(a) <= pow2(b),
{
    lemma_pow2_pos(a);
    if a < b {
        vstd::arithmetic::power2::lemma_pow2_strictly_increases(a, b);
    }
}

proof fn lemma_magnitude_against_one(x: Float32)
    ensures
        x.bits < 0x7f80_0000 ==> {
            &&& x.magnitude() == pow2(149) <==> x.bits == 0x3f80_0000
            &&& x.magnitude() > pow2(149) <==> x.bits > 0x3f80_0000
        },
{
    if x.bits < 0x7f80_0000 {
        let e = x.exponent();
        let f = x.fraction();
        let s = f + 0x80_0000;
        vstd::arithmetic::power2::lemma2_to64();
        lemma_pow2_adds(23, 126);
        if e == 0 {
            lemma_pow2_grows(24, 149);
        } else if e < 127 {
            let p = pow2((e - 1) as nat);
            lemma_pow2_grows((e - 1) as nat, 125);
            lemma_pow2_adds(24, 125);
            assert(s * p < 0x100_0000 * pow2(125)) by (nonlinear_arith)
                requires
                    s < 0x100_0000,
                    0 < p <= pow2(125),
            ;
        } else if e == 127 {
            let p = pow2(126);
            lemma_pow2_pos(126);
            assert(s > 0x80_0000 ==> s * p > 0x80_0000 * p) by (nonlinear_arith)
                requires
                    p > 0,
            ;
            assert(s == 0x80_0000 ==> s * p == 0x80_0000 * p);
        } else {
            let p = pow2((e - 1) as nat);
            lemma_pow2_grows(127, (e - 1) as nat);
            lemma_pow2_adds(126, 1);
            lemma_pow2_pos(126);
            assert(s * p > 0x80_0000 * pow2(126)) by (nonlinear_arith)
                requires
                    s >= 0x80_0000,
                    p >= pow2(127),
                    pow2(127) == pow2(126) * 2,
                    pow2(126) > 0,
            ;
        }
    }
}

impl Float64 {
    /// The bits of a whole number above zero: its highest bit at place `k` gives the
    /// exponent, and the bits below it the fraction.
    pub open spec fn whole_at(n: nat, k: nat) -> Float64 {
        from_parts(false, 1023 + k, ((n - pow2(k)) * pow2((52 - k) as nat)) as nat)
    }

    /// A whole number.
    pub open spec fn whole(n: u32) -> Float64 {
        if n == 0 {
            from_parts(false, 0, 0)
        } else {
            Float64::whole_at(n as nat, highest_bit(n as nat))
        }
    }
}

/// The place of the highest bit of a number above zero.
pub open spec fn highest_bit(n: nat) -> nat
    decreases n,
{
    if n <= 1 {
        0
    } else {
        1 + highest_bit(n / 2)
    }
}

proof fn lemma_highest_bit(n: nat)
    requires
        n > 0,
    ensures
        pow2(highest_bit(n)) <= n < 2 * pow2(highest_bit(n)),
    decreases n,
{
    vstd::arithmetic::power2::lemma2_to64();
    if n > 1 {
        lemma_highest_bit(n / 2);
        lemma_pow2_adds(1, highest_bit(n / 2));
    }
}

/// The value of a whole number is that number.
pub proof fn lemma_whole_number(n: u32)
    ensures
        Float64::whole(n).is_finite(),
        !Float64::whole(n).negative(),
        Float64::whole(n).magnitude() == n * pow2(1074),
{
    if n == 0 {
        lemma_from_parts(false, 0, 0);
        assert(0 * pow2(1074) == 0) by (nonlinear_arith);
    } else {
        let k = highest_bit(n as nat);
        lemma_highest_bit(n as nat);
        vstd::arithmetic::power2::lemma2_to64();
        vstd::arithmetic::power2::lemma2_to64_rest();
        if k >= 32 {
            lemma_pow2_grows(32, k);
        }
        let p = pow2(k);
        let q = pow2((52 - k) as nat);
        let m = n as nat;
        lemma_pow2_pos(k);
        lemma_pow2_pos((52 - k) as nat);
        lemma_pow2_adds(k, (52 - k) as nat);
        let d = (m - p) as nat;
        assert(d * q < p * q) by (nonlinear_arith)
            requires
                d < p,
                q > 0,
        ;
        assert(d * q + p * q == m * q) by (nonlinear_arith)
            requires
                d + p == m,
        ;
        lemma_from_parts(false, 1023 + k, d * q);
        let e = pow2((1022 + k) as nat);
        lemma_pow2_adds((52 - k) as nat, (1022 + k) as nat);
        assert((m * q) * e == m * (q * e)) by (nonlinear_arith);
    }
}

proof fn lemma_larger_bits_are_larger(a: Float64, b: Float64)
    requires
        a.bits < b.bits < 0x7ff0_0000_0000_0000,
    ensures
        a.magnitude() < b.magnitude(),
{
    vstd::arithmetic::power2::lemma2_to64_rest();
    let ea = a.exponent();
    let eb = b.exponent();
    let s = a.fraction() + 0x10_0000_0000_0000;
    let t = b.fraction() + 0x10_0000_0000_0000;
    if eb > 0 {
        let q = pow2((eb - 1) as nat);
        lemma_pow2_pos((eb - 1) as nat);
        if ea == eb {
            assert(s * q < t * q) by (nonlinear_arith)
                requires
                    s < t,
                    q > 0,
            ;
        } else {
            assert(t * q >= 0x10_0000_0000_0000 * q) by (nonlinear_arith)
                requires
                    t >= 0x10_0000_0000_0000,
            ;
            if ea > 0 {
                let p = pow2((ea - 1) as nat);
                lemma_pow2_pos((ea - 1) as nat);
                vstd::arithmetic::power2::lemma2_to64();
                lemma_pow2_adds((ea - 1) as nat, 1);
                lemma_pow2_grows(ea, (eb - 1) as nat);
                assert(s * p < 0x10_0000_0000_0000 * (p * 2)) by (nonlinear_arith)
                    requires
                        s < 0x20_0000_0000_0000,
                        p > 0,
                ;
            }
        }
    }
}

/// A number that is not negative lies below a limit exactly where its bits lie below those
/// of the limit.
pub proof fn lemma_range_by_bits(x: Float64, limit: u32)
    requires
        x.bits < 0x8000_0000_0000_0000,
    ensures
        x.in_range(limit) <==> x.bits < Float64::whole(limit).bits,
{
    let y = Float64::whole(limit);
    lemma_whole_number(limit);
    if x.bits < y.bits {
        lemma_larger_bits_are_larger(x, y);
    } else if y.bits < x.bits && x.bits < 0x7ff0_0000_0000_0000 {
        lemma_larger_bits_are_larger(y, x);
    }
}

/// No number with the sign bit is in a range but negative zero, which is where zero is.
pub proof fn lemma_negative_is_below_zero(x: Float64)
    ensures
        x.bits > 0x8000_0000_0000_0000 ==> forall|limit: u32| !#[trigger] x.in_range(limit),
        forall|limit: u32|
            (Float64 { bits: 0x8000_0000_0000_0000 }).in_range(limit) == #[trigger] (Float64 {
                bits: 0,
            }).in_range(limit),
{
    if x.bits > 0x8000_0000_0000_0000 {
        lemma_magnitude_nonzero(x);
    }
}

proof fn lemma_limit_positive(limit: u32)
    ensures
        0 < limit * pow2(1074) <==> limit > 0,
{
    lemma_pow2_pos(1074);
    assert(0 < limit * pow2(1074) <==> limit > 0) by (nonlinear_arith)
        requires
            pow2(1074) > 0,
    ;
}

proof fn lemma_magnitude_nonzero(x: Float64)
    requires
        x.bits % 0x8000_0000_0000_0000 != 0,
    ensures
        x.magnitude() > 0,
{
    if x.exponent() > 0 {
        let s = x.fraction() + 0x10_0000_0000_0000;
        let p = pow2((x.exponent() - 1) as nat);
        lemma_pow2_pos((x.exponent() - 1) as nat);
        assert(s * p > 0) by (nonlinear_arith)
            requires
                s > 0,
                p > 0,
        ;
    }
}

proof fn lemma_below_one(x: Float64)
    requires
        x.exponent() < 1023,
    ensures
        x.magnitude() < pow2(1074),
        forall|limit: u32| limit > 0 ==> x.magnitude() < #[trigger] (limit * pow2(1074)),
{
    let e = x.exponent();
    vstd::arithmetic::power2::lemma2_to64_rest();
    if e == 0 {
        lemma_pow2_grows(53, 1074);
    } else {
        let s = x.fraction() + 0x10_0000_0000_0000;
        let p = pow2((e - 1) as nat);
        lemma_pow2_grows((e - 1) as nat, 1021);
        lemma_pow2_adds(53, 1021);
        assert(s * p < 0x20_0000_0000_0000 * pow2(1021)) by (nonlinear_arith)
            requires
                s < 0x20_0000_0000_0000,
                0 < p <= pow2(1021),
        ;
    }
    assert forall|limit: u32| limit > 0 implies x.magnitude() < #[trigger] (limit * pow2(1074)) by {
        assert(1 * pow2(1074) <= limit * pow2(1074)) by (nonlinear_arith)
            requires
                limit >= 1,
        ;
    }
}

proof fn lemma_at_least_two_to_32(x: Float64, limit: u32)
    requires
        1055 <= x.exponent(),
    ensures
        x.magnitude() >= limit * pow2(1074),
{
    let e = x.exponent();
    let s = x.fraction() + 0x10_0000_0000_0000;
    let p = pow2((e - 1) as nat);
    vstd::arithmetic::power2::lemma2_to64_rest();
    vstd::arithmetic::power2::lemma2_to64();
    lemma_pow2_grows(1054, (e - 1) as nat);
    lemma_pow2_adds(52, 1054);
    lemma_pow2_adds(32, 1074);
    assert(s * p >= 0x10_0000_0000_0000 * pow2(1054)) by (nonlinear_arith)
        requires
            s >= 0x10_0000_0000_0000,
            p >= pow2(1054),
            pow2(1054) > 0,
    ;
    assert(0x1_0000_0000 * pow2(1074) >= limit * pow2(1074)) by (nonlinear_arith)
        requires
            limit <= 0x1_0000_0000,
    ;
}

proof fn lemma_whole_part(x: Float64, significand: u64, shift: u64, limit: u32)
    requires
        1023 <= x.exponent() < 1055,
        significand == x.fraction() + 0x10_0000_0000_0000,
        shift == 1075 - x.exponent(),
    ensures
        (significand >> shift) < limit as u64 <==> x.magnitude() < limit * pow2(1074),
{
    let e = x.exponent();
    let p = pow2((e - 1) as nat) as int;
    let q = pow2(shift as nat) as int;
    let s = significand as int;
    let w = (significand >> shift) as int;
    let l = limit as int;
    lemma_pow2_pos((e - 1) as nat);
    lemma_pow2_pos(shift as nat);
    lemma_pow2_adds(shift as nat, (e - 1) as nat);
    vstd::bits::lemma_u64_shr_is_div(significand, shift);
    vstd::arithmetic::div_mod::lemma_fundamental_div_mod(s, q);
    assert(s < l * q <==> w < l) by (nonlinear_arith)
        requires
            s == q * w + s % q,
            0 <= s % q < q,
            q > 0,
    ;
    assert(s < l * q <==> s * p < l * (q * p)) by (nonlinear_arith)
        requires
            p > 0,
    ;
}

} // verus!
