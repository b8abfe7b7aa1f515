//! Double-precision scalars as IEEE-754 binary64 bit patterns.
//!
//! The renderer's arithmetic is done by the caller on native doubles; this
//! module holds the operations whose result is exact and can be stated over
//! the encoding itself: the order relations, negation, clamping and the
//! conversion of a channel to eight bits. Every operation agrees with the
//! native one on the same bits, including the two zeros and NaN.

use vstd::prelude::*;
use vstd::arithmetic::power2::{
    pow2, lemma_pow2_adds, lemma_pow2_pos, lemma_pow2_strictly_increases, lemma2_to64, lemma2_to64_rest,
};
use vstd::arithmetic::div_mod::{
    lemma_basic_div, lemma_div_is_ordered, lemma_div_is_ordered_by_denominator, lemma_div_multiples_vanish,
    lemma_multiply_divide_lt,
};
use vstd::arithmetic::mul::lemma_mul_inequality;
use vstd::bits::lemma_u64_shr_is_div;
use vstd::std_specs::cmp::PartialEqSpecImpl;
use vstd::std_specs::ops::NegSpecImpl;

verus! {

/// The sign bit of the encoding.
pub const SIGN_BIT: u64 = 0x8000_0000_0000_0000;

/// Magnitude of the infinities: all exponent bits set, fraction zero.
pub const INFINITY_BITS: u64 = 0x7FF0_0000_0000_0000;

/// Encoding of 1.0.
pub const ONE_BITS: u64 = 0x3FF0_0000_0000_0000;

/// Two to the 52nd: the implicit leading bit of a normal significand, and
/// the weight of the exponent field inside the magnitude.
pub const HIDDEN_BIT: u64 = 0x0010_0000_0000_0000;

/// A binary64 number, stored as the 64 bits of its encoding.
#[derive(Clone, Copy, Debug)]
pub struct Scalar {
    pub bits: u64,
}

impl Scalar {
    /// The sign bit is set. True of `-0.0` and of NaNs with the sign bit.
    pub open spec fn is_negative(self) -> bool {
        self.bits >= SIGN_BIT
    }

    /// The encoding without its sign bit.
    pub open spec fn magnitude(self) -> nat {
        if self.bits >= SIGN_BIT {
            (self.bits - SIGN_BIT) as nat
        } else {
            self.bits as nat
        }
    }

    pub open spec fn is_nan(self) -> bool {
        self.magnitude() > INFINITY_BITS
    }

    pub open spec fn is_infinite(self) -> bool {
        self.magnitude() == INFINITY_BITS
    }

    pub open spec fn is_finite(self) -> bool {
        self.magnitude() < INFINITY_BITS
    }

    /// The biased exponent field.
    pub open spec fn exponent_field(self) -> nat {
        self.magnitude() / (HIDDEN_BIT as nat)
    }

    /// The 52 fraction bits.
    pub open spec fn fraction(self) -> nat {
        self.magnitude() % (HIDDEN_BIT as nat)
    }

    /// The integer `m` of a finite scalar whose absolute value is
    /// `m * 2^exponent()`.
    pub open spec fn significand(self) -> nat {
        if self.exponent_field() == 0 {
            self.fraction()
        } else {
            HIDDEN_BIT as nat + self.fraction()
        }
    }

    /// The power of two that scales `significand()`.
    pub open spec fn exponent(self) -> int {
        if self.exponent_field() == 0 {
            -1074
        } else {
            self.exponent_field() as int - 1075
        }
    }

    /// `floor(|v| * 2^k)` for a finite scalar `v`.
    pub open spec fn floor_scaled(self, k: int) -> nat {
        let e = self.exponent() + k;
        if e >= 0 {
            self.significand() * pow2(e as nat)
        } else {
            self.significand() / pow2((-e) as nat)
        }
    }

    /// Where a scalar that is not NaN stands on the number line: the map is
    /// strictly increasing in the value, sends both zeros to 0 and the
    /// infinities to the two ends.
    pub open spec fn rank(self) -> int {
        if self.is_negative() {
            -(self.magnitude() as int)
        } else {
            self.magnitude() as int
        }
    }

    /// IEEE `<`: false as soon as one side is NaN.
    pub open spec fn spec_lt(self, other: Scalar) -> bool {
        !self.is_nan() && !other.is_nan() && self.rank() < other.rank()
    }

    /// IEEE `<=`: false as soon as one side is NaN.
    pub open spec fn spec_le(self, other: Scalar) -> bool {
        !self.is_nan() && !other.is_nan() && self.rank() <= other.rank()
    }

    /// IEEE `==`: false as soon as one side is NaN, true of `0.0` and `-0.0`.
    pub open spec fn spec_eq(self, other: Scalar) -> bool {
        !self.is_nan() && !other.is_nan() && self.rank() == other.rank()
    }

    /// The encoding with the sign bit flipped.
    pub open spec fn spec_neg(self) -> Scalar {
        if self.bits >= SIGN_BIT {
            Scalar { bits: (self.bits - SIGN_BIT) as u64 }
        } else {
            Scalar { bits: (self.bits + SIGN_BIT) as u64 }
        }
    }

    /// `x` forced into `[lo, hi]` by two comparisons: below `lo` gives `lo`,
    /// above `hi` gives `hi`, anything else (NaN too) is `x` itself.
    pub open spec fn spec_clamp(self, lo: Scalar, hi: Scalar) -> Scalar {
        if self.spec_lt(lo) {
            lo
        } else if hi.spec_lt(self) {
            hi
        } else {
            self
        }
    }

    /// The eight-bit channel of a linear value: `floor(256 * v)` held to
    /// `0..=255`, and 0 for NaN.
    pub open spec fn spec_to_channel(self) -> u8 {
        if self.is_nan() || self.is_negative() {
            0
        } else if self.is_infinite() || self.floor_scaled(8) >= 255 {
            255
        } else {
            self.floor_scaled(8) as u8
        }
    }

    pub fn from_bits(bits: u64) -> (s: Scalar)
        ensures
            s.bits == bits,
    {
        Scalar { bits }
    }

    pub fn to_bits(self) -> (bits: u64)
        ensures
            bits == self.bits,
    {
        self.bits
    }

    /// 0.0
    pub fn zero() -> (s: Scalar)
        ensures
            s.bits == 0,
    {
        Scalar { bits: 0 }
    }

    /// 1.0
    pub fn one() -> (s: Scalar)
        ensures
            s.bits == ONE_BITS,
    {
        Scalar { bits: ONE_BITS }
    }

    /// Positive infinity.
    pub fn infinity() -> (s: Scalar)
        ensures
            s.bits == INFINITY_BITS,
    {
        Scalar { bits: INFINITY_BITS }
    }

    fn magnitude_bits(self) -> (m: u64)
        ensures
            m == self.magnitude(),
            m < SIGN_BIT,
    {
        if self.bits >= SIGN_BIT {
            self.bits - SIGN_BIT
        } else {
            self.bits
        }
    }

    pub fn is_sign_negative(self) -> (r: bool)
        ensures
            r == self.is_negative(),
    {
        self.bits >= SIGN_BIT
    }

    pub fn is_not_a_number(self) -> (r: bool)
        ensures
            r == self.is_nan(),
    {
        self.magnitude_bits() > INFINITY_BITS
    }

    pub fn lt(self, other: Scalar) -> (r: bool)
        ensures
            r == self.spec_lt(other),
    {
        if self.is_not_a_number() || other.is_not_a_number() {
            return false;
        }
        let a: u64 = self.magnitude_bits();
        let b: u64 = other.magnitude_bits();
        if self.bits >= SIGN_BIT {
            if other.bits >= SIGN_BIT {
                b < a
            } else {
                a > 0 || b > 0
            }
        } else {
            if other.bits >= SIGN_BIT {
                false
            } else {
                a < b
            }
        }
    }

    pub fn gt(self, other: Scalar) -> (r: bool)
        ensures
            r == other.spec_lt(self),
    {
        other.lt(self)
    }

    pub fn le(self, other: Scalar) -> (r: bool)
        ensures
            r == self.spec_le(other),
    {
        if self.is_not_a_number() || other.is_not_a_number() {
            return false;
        }
        !other.lt(self)
    }

    pub fn ge(self, other: Scalar) -> (r: bool)
        ensures
            r == other.spec_le(self),
    {
        other.le(self)
    }

    /// Clamps as two comparisons do; see `spec_clamp` for NaN.
    pub fn clamp(self, lo: Scalar, hi: Scalar) -> (r: Scalar)
        ensures
            r == self.spec_clamp(lo, hi),
    {
        if self.lt(lo) {
            return lo;
        }
        if self.gt(hi) {
            return hi;
        }
        self
    }

    /// What `(v * 256.0) as u8` gives on the native double: the product by
    /// 256 is exact, and the cast truncates and saturates.
    pub fn to_channel(self) -> (c: u8)
        ensures
            c == self.spec_to_channel(),
    {
        if self.bits >= SIGN_BIT || self.bits > INFINITY_BITS {
            return 0;
        }
        let field: u64 = self.bits / HIDDEN_BIT;
        let fraction: u64 = self.bits % HIDDEN_BIT;
        if self.bits >= ONE_BITS {
            proof {
                if self.bits < INFINITY_BITS {
                    lemma_floor_scaled_large(self);
                }
            }
            return 255;
        }
        if field < 1015 {
            proof {
                lemma_floor_scaled_small(self);
            }
            return 0;
        }
        let significand: u64 = HIDDEN_BIT + fraction;
        let shift: u64 = 1067 - field;
        let q: u64 = significand >> shift;
        proof {
            lemma_u64_shr_is_div(significand, shift);
            lemma_floor_scaled_mid(self);
        }
        if q >= 255 {
            255
        } else {
            q as u8
        }
    }
}

/// A finite scalar of at least 1.0 has `floor(256 * v) >= 256`.
proof fn lemma_floor_scaled_large(s: Scalar)
    requires
        !s.is_negative(),
        s.is_finite(),
        s.bits >= ONE_BITS,
    ensures
        s.floor_scaled(8) >= 256,
{
    let field = s.exponent_field();
    let m = s.significand();
    assert(1023 <= field <= 2046);
    assert(m >= HIDDEN_BIT);
    let e = s.exponent() + 8;
    lemma2_to64();
    lemma2_to64_rest();
    if e >= 0 {
        lemma_pow2_pos(e as nat);
        lemma_mul_inequality(1, pow2(e as nat) as int, m as int);
        assert(m * pow2(e as nat) == pow2(e as nat) * m) by (nonlinear_arith);
    } else {
        let n = (-e) as nat;
        assert(1 <= n <= 44);
        if n < 44 {
            lemma_pow2_strictly_increases(n, 44);
        }
        lemma_pow2_pos(n);
        lemma_div_is_ordered_by_denominator(m as int, pow2(n) as int, pow2(44) as int);
        lemma_div_is_ordered(HIDDEN_BIT as int, m as int, pow2(44) as int);
        assert(HIDDEN_BIT as int / (pow2(44) as int) == 256);
    }
}

/// A scalar below 2^-8 has `floor(256 * v) == 0`.
proof fn lemma_floor_scaled_small(s: Scalar)
    requires
        !s.is_negative(),
        s.exponent_field() < 1015,
    ensures
        s.floor_scaled(8) == 0,
{
    let m = s.significand();
    let e = s.exponent() + 8;
    assert(m < 2 * HIDDEN_BIT);
    assert(e <= -53);
    let n = (-e) as nat;
    lemma2_to64();
    lemma2_to64_rest();
    if n > 53 {
        lemma_pow2_strictly_increases(53, n);
    }
    lemma_basic_div(m as int, pow2(n) as int);
}

/// Between 2^-8 and 1.0 the shift count is between 45 and 52 and the
/// quotient is a byte.
proof fn lemma_floor_scaled_mid(s: Scalar)
    requires
        !s.is_negative(),
        1015 <= s.exponent_field() <= 1022,
    ensures
        s.floor_scaled(8) == s.significand() / pow2((1067 - s.exponent_field()) as nat),
        s.floor_scaled(8) < 256,
{
    let m = s.significand();
    let n = (1067 - s.exponent_field()) as nat;
    assert(s.exponent() + 8 == -(n as int));
    assert(45 <= n <= 52);
    assert(m < 2 * HIDDEN_BIT);
    lemma2_to64();
    lemma2_to64_rest();
    if n > 45 {
        lemma_pow2_strictly_increases(45, n);
    }
    lemma_div_is_ordered_by_denominator(m as int, pow2(45) as int, pow2(n) as int);
    assert(m as int / (pow2(45) as int) < 256);
}

/// `<` is a strict order on the scalars: nothing is below itself, and the
/// relation is transitive, NaN included.
pub proof fn lemma_lt_is_strict_order(a: Scalar, b: Scalar, c: Scalar)
    ensures
        !a.spec_lt(a),
        a.spec_lt(b) && b.spec_lt(c) ==> a.spec_lt(c),
        a.spec_lt(b) ==> !b.spec_lt(a),
{
}

/// Two scalars that are numbers compare in exactly one way.
pub proof fn lemma_trichotomy(a: Scalar, b: Scalar)
    requires
        !a.is_nan(),
        !b.is_nan(),
    ensures
        a.spec_lt(b) || a.spec_eq(b) || b.spec_lt(a),
        !(a.spec_lt(b) && a.spec_eq(b)),
        !(b.spec_lt(a) && a.spec_eq(b)),
        a.spec_le(b) <==> a.spec_lt(b) || a.spec_eq(b),
        a.spec_le(b) <==> !b.spec_lt(a),
{
}

/// A NaN compares with nothing, not even with itself.
pub proof fn lemma_nan_is_unordered(a: Scalar, b: Scalar)
    requires
        a.is_nan(),
    ensures
        !a.spec_lt(b),
        !b.spec_lt(a),
        !a.spec_le(b),
        !b.spec_le(a),
        !a.spec_eq(b),
        !b.spec_eq(a),
{
}

/// Negation is an involution that mirrors the number line.
pub proof fn lemma_neg_mirrors(a: Scalar, b: Scalar)
    ensures
        a.spec_neg().spec_neg() == a,
        a.spec_neg().is_nan() == a.is_nan(),
        a.spec_neg().rank() == -a.rank(),
        a.spec_lt(b) <==> b.spec_neg().spec_lt(a.spec_neg()),
{
}

/// A clamped number lies between the bounds, if these are in order.
pub proof fn lemma_clamp_in_range(x: Scalar, lo: Scalar, hi: Scalar)
    requires
        !x.is_nan(),
        lo.spec_le(hi),
    ensures
        lo.spec_le(x.spec_clamp(lo, hi)),
        x.spec_clamp(lo, hi).spec_le(hi),
        lo.spec_le(x) && x.spec_le(hi) ==> x.spec_clamp(lo, hi) == x,
{
}

/// Below 1.0 the conversion to a channel does not saturate: the channel
/// of a non-negative number is exactly `floor(256 * v)`.
pub proof fn lemma_channel_below_one(s: Scalar)
    requires
        !s.is_negative(),
        s.bits < ONE_BITS,
    ensures
        s.floor_scaled(8) < 256,
        s.spec_to_channel() == s.floor_scaled(8),
{
    if s.exponent_field() < 1015 {
        lemma_floor_scaled_small(s);
    } else {
        lemma_floor_scaled_mid(s);
    }
}

/// From 1.0 on, and for the positive infinity, the channel is 255.
pub proof fn lemma_channel_from_one(s: Scalar)
    requires
        !s.is_negative(),
        !s.is_nan(),
        s.bits >= ONE_BITS,
    ensures
        s.spec_to_channel() == 255,
{
    if s.is_finite() {
        lemma_floor_scaled_large(s);
    }
}

/// The conversion to a channel is monotone: a larger value never gives a
/// smaller byte.
pub proof fn lemma_channel_is_monotone(a: Scalar, b: Scalar)
    requires
        a.spec_le(b),
    ensures
        a.spec_to_channel() <= b.spec_to_channel(),
{
    if !a.is_negative() && !b.is_negative() {
        if b.bits >= ONE_BITS {
            lemma_channel_from_one(b);
        } else {
            lemma_channel_below_one(a);
            lemma_channel_below_one(b);
            lemma_floor_scaled_monotone(a, b);
        }
    } else if !a.is_negative() {
        // Only 0.0 is at most a number with the sign bit: -0.0.
        lemma_floor_scaled_small(a);
    }
}

/// Below 1.0, `floor(256 * v)` grows with the encoding.
proof fn lemma_floor_scaled_monotone(a: Scalar, b: Scalar)
    requires
        !a.is_negative(),
        !b.is_negative(),
        a.bits <= b.bits,
        b.bits < ONE_BITS,
    ensures
        a.floor_scaled(8) <= b.floor_scaled(8),
{
    let fa = a.exponent_field();
    let fb = b.exponent_field();
    assert(fa <= fb);
    if fa < 1015 {
        lemma_floor_scaled_small(a);
    } else {
        lemma_floor_scaled_mid(a);
        lemma_floor_scaled_mid(b);
        let na = (1067 - fa) as nat;
        let nb = (1067 - fb) as nat;
        let ma = a.significand();
        let mb = b.significand();
        lemma_pow2_pos(na);
        lemma_pow2_pos(nb);
        if fa == fb {
            lemma_div_is_ordered(ma as int, mb as int, pow2(na) as int);
        } else {
            // ma / 2^na < 2^(53 - na) <= 2^(52 - nb) <= mb / 2^nb
            let top = (53 - na) as nat;
            lemma2_to64();
            lemma2_to64_rest();
            lemma_pow2_adds(na, top);
            assert(pow2(na) * pow2(top) == pow2(53));
            lemma_multiply_divide_lt(ma as int, pow2(na) as int, pow2(top) as int);
            let low = (52 - nb) as nat;
            if top < low {
                lemma_pow2_strictly_increases(top, low);
            }
            lemma_pow2_adds(nb, low);
            assert(pow2(nb) * pow2(low) == pow2(52));
            lemma_div_multiples_vanish(pow2(low) as int, pow2(nb) as int);
            lemma_div_is_ordered(pow2(52) as int, mb as int, pow2(nb) as int);
        }
    }
}

impl PartialEq for Scalar {
    /// IEEE equality, as `==` on the native doubles.
    fn eq(&self, other: &Scalar) -> (r: bool) {
        if self.is_not_a_number() || other.is_not_a_number() {
            return false;
        }
        let a: u64 = self.magnitude_bits();
        let b: u64 = other.magnitude_bits();
        if a == 0 && b == 0 {
            true
        } else {
            self.bits == other.bits
        }
    }
}

impl PartialEqSpecImpl for Scalar {
    open spec fn obeys_eq_spec() -> bool {
        true
    }

    open spec fn eq_spec(&self, other: &Scalar) -> bool {
        self.spec_eq(*other)
    }
}

impl core::ops::Neg for Scalar {
    type Output = Scalar;

    /// Exact negation: only the sign bit changes.
    fn neg(self) -> (r: Scalar) {
        if self.bits >= SIGN_BIT {
            Scalar { bits: self.bits - SIGN_BIT }
        } else {
            Scalar { bits: self.bits + SIGN_BIT }
        }
    }
}

impl NegSpecImpl for Scalar {
    open spec fn obeys_neg_spec() -> bool {
        true
    }

    open spec fn neg_req(self) -> bool {
        true
    }

    open spec fn neg_spec(self) -> Scalar {
        self.spec_neg()
    }
}

impl Default for Scalar {
    fn default() -> (s: Scalar)
        ensures
            s.bits == 0,
    {
        Scalar { bits: 0 }
    }
}

} // verus!
