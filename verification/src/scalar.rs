//! Single-precision scalars carried as IEEE-754 bit patterns.
//!
//! Colours, angles, lengths and matrix entries travel through this crate as
//! the 32-bit patterns of their binary32 encoding. That is all the GPU needs,
//! and it lets the few comparisons that the crate makes (range checks on
//! render parameters) be stated and proved over integers.

use vstd::arithmetic::power2::{
    lemma2_to64,
    lemma_pow2_adds,
    lemma_pow2_pos,
    lemma_pow2_strictly_increases,
    lemma_pow2_unfold,
    pow2,
};
use vstd::prelude::*;

verus! {

/// The sign bit of a binary32 pattern.
pub const SIGN_BIT: u32 = 0x8000_0000;

/// The pattern of positive infinity; every larger magnitude is a NaN.
pub const INFINITY_BITS: u32 = 0x7f80_0000;

/// The weight of the implicit leading bit of a normal number: 2^23.
pub const HIDDEN_BIT: u32 = 0x80_0000;

/// The pattern of `0.0`.
pub const ZERO_BITS: u32 = 0x0000_0000;

/// The pattern of `1.0`.
pub const ONE_BITS: u32 = 0x3f80_0000;

/// The pattern of `90.0`.
pub const NINETY_BITS: u32 = 0x42b4_0000;

/// A single-precision IEEE-754 value, held as its bit pattern.
///
/// Equality is equality of patterns: `0.0` and `-0.0` are different scalars
/// and a NaN equals itself. The numeric order is given by [`Scalar::spec_le`]
/// and [`Scalar::spec_lt`].
#[derive(Clone, Copy, Debug, PartialEq, Eq, Structural)]
pub struct Scalar {
    pub bits: u32,
}

impl Scalar {
    /// The pattern without its sign bit.
    pub open spec fn magnitude(self) -> int {
        if self.bits >= SIGN_BIT {
            self.bits - SIGN_BIT
        } else {
            self.bits as int
        }
    }

    /// Whether the sign bit is set (true of `-0.0` too).
    pub open spec fn is_sign_negative(self) -> bool {
        self.bits >= SIGN_BIT
    }

    /// Whether the pattern encodes a NaN.
    pub open spec fn spec_is_nan(self) -> bool {
        self.magnitude() > INFINITY_BITS
    }

    /// Whether the pattern encodes a number, not an infinity or a NaN.
    pub open spec fn is_finite(self) -> bool {
        self.magnitude() < INFINITY_BITS
    }

    /// The eight bits of the exponent.
    pub open spec fn exponent_field(self) -> int {
        self.magnitude() / (HIDDEN_BIT as int)
    }

    /// The 23 bits of the fraction.
    pub open spec fn fraction_field(self) -> int {
        self.magnitude() % (HIDDEN_BIT as int)
    }

    /// The absolute value that the pattern encodes, in units of 2^-149, the
    /// smallest positive value of the format: the fraction alone for a
    /// subnormal number, else the fraction with its leading bit, shifted by
    /// the exponent. It is meant for finite scalars.
    pub open spec fn scaled_magnitude(self) -> int {
        if self.exponent_field() == 0 {
            self.fraction_field()
        } else {
            (HIDDEN_BIT + self.fraction_field()) * pow2((self.exponent_field() - 1) as nat)
        }
    }

    /// The value that the pattern encodes, in units of 2^-149.
    pub open spec fn scaled_value(self) -> int {
        if self.is_sign_negative() {
            -self.scaled_magnitude()
        } else {
            self.scaled_magnitude()
        }
    }

    /// An integer that orders the non-NaN scalars as IEEE-754 orders their
    /// values: the magnitude, negated under a sign bit. Both zeros have key 0,
    /// the infinities have the keys of largest absolute value.
    pub open spec fn order_key(self) -> int {
        if self.is_sign_negative() {
            -self.magnitude()
        } else {
            self.magnitude()
        }
    }

    /// IEEE-754 `<=`: false as soon as either side is a NaN.
    pub open spec fn spec_le(self, other: Scalar) -> bool {
        &&& !self.spec_is_nan()
        &&& !other.spec_is_nan()
        &&& self.order_key() <= other.order_key()
    }

    /// IEEE-754 `<`: false as soon as either side is a NaN.
    pub open spec fn spec_lt(self, other: Scalar) -> bool {
        &&& !self.spec_is_nan()
        &&& !other.spec_is_nan()
        &&& self.order_key() < other.order_key()
    }

    /// Membership in the closed range `lo..=hi`. A NaN is in no range.
    pub open spec fn spec_within(self, lo: Scalar, hi: Scalar) -> bool {
        lo.spec_le(self) && self.spec_le(hi)
    }

    /// The scalar with the given pattern.
    pub fn from_bits(bits: u32) -> (s: Scalar)
        ensures
            s.bits == bits,
    {
        Scalar { bits }
    }

    /// The pattern of this scalar.
    pub fn to_bits(self) -> (bits: u32)
        ensures
            bits == self.bits,
    {
        self.bits
    }

    /// `0.0`.
    pub fn zero() -> (s: Scalar)
        ensures
            s.bits == ZERO_BITS,
    {
        Scalar { bits: ZERO_BITS }
    }

    /// `1.0`.
    pub fn one() -> (s: Scalar)
        ensures
            s.bits == ONE_BITS,
    {
        Scalar { bits: ONE_BITS }
    }

    /// `90.0`.
    pub fn ninety() -> (s: Scalar)
        ensures
            s.bits == NINETY_BITS,
    {
        Scalar { bits: NINETY_BITS }
    }

    /// Whether the scalar is a NaN.
    #[verifier::when_used_as_spec(spec_is_nan)]
    pub fn is_nan(self) -> (r: bool)
        ensures
            r == self.spec_is_nan(),
    {
        if self.bits >= SIGN_BIT {
            self.bits - SIGN_BIT > INFINITY_BITS
        } else {
            self.bits > INFINITY_BITS
        }
    }

    fn key(self) -> (k: i64)
        ensures
            k == self.order_key(),
    {
        if self.bits >= SIGN_BIT {
            -((self.bits - SIGN_BIT) as i64)
        } else {
            self.bits as i64
        }
    }

    /// IEEE-754 `self <= other`.
    #[verifier::when_used_as_spec(spec_le)]
    pub fn le(self, other: Scalar) -> (r: bool)
        ensures
            r == self.spec_le(other),
    {
        !self.is_nan() && !other.is_nan() && self.key() <= other.key()
    }

    /// IEEE-754 `self < other`.
    #[verifier::when_used_as_spec(spec_lt)]
    pub fn lt(self, other: Scalar) -> (r: bool)
        ensures
            r == self.spec_lt(other),
    {
        !self.is_nan() && !other.is_nan() && self.key() < other.key()
    }

    /// Whether `self` lies in the closed range `lo..=hi`.
    #[verifier::when_used_as_spec(spec_within)]
    pub fn within(self, lo: Scalar, hi: Scalar) -> (r: bool)
        ensures
            r == self.spec_within(lo, hi),
    {
        lo.le(self) && self.le(hi)
    }
}

/// On scalars without a sign bit that are not NaN, the numeric order is the
/// order of the patterns read as unsigned integers.
pub proof fn lemma_le_on_non_negative(a: Scalar, b: Scalar)
    requires
        a.bits <= INFINITY_BITS,
        b.bits <= INFINITY_BITS,
    ensures
        a.spec_le(b) <==> a.bits <= b.bits,
{
}

/// A scalar is at least `0.0` exactly when it is not a NaN and either carries
/// no sign bit or is `-0.0`.
pub proof fn lemma_zero_le(a: Scalar)
    ensures
        (Scalar { bits: ZERO_BITS }).spec_le(a) <==> (a.bits <= INFINITY_BITS || a.bits
            == SIGN_BIT),
{
}

/// The numeric order is reflexive on non-NaN scalars, transitive, and total
/// on non-NaN scalars.
pub proof fn lemma_le_is_an_order(a: Scalar, b: Scalar, c: Scalar)
    ensures
        !a.spec_is_nan() ==> a.spec_le(a),
        a.spec_le(b) && b.spec_le(c) ==> a.spec_le(c),
        !a.spec_is_nan() && !b.spec_is_nan() ==> a.spec_le(b) || b.spec_le(a),
        a.spec_lt(b) <==> a.spec_le(b) && !b.spec_le(a),
{
}

/// The least scaled magnitude among the patterns with exponent field `e`.
spec fn band_start(e: int) -> int {
    if e <= 0 {
        0
    } else {
        HIDDEN_BIT * pow2((e - 1) as nat)
    }
}

/// The scaled magnitude of a pattern lies in the band of its exponent.
proof fn lemma_band(a: Scalar)
    ensures
        band_start(a.exponent_field()) <= a.scaled_magnitude() < band_start(
            a.exponent_field() + 1,
        ),
{
    let e = a.exponent_field();
    let f = a.fraction_field();
    lemma2_to64();
    if e > 0 {
        let p = pow2((e - 1) as nat) as int;
        lemma_pow2_pos((e - 1) as nat);
        lemma_pow2_unfold(e as nat);
        assert(HIDDEN_BIT * p <= (HIDDEN_BIT + f) * p < HIDDEN_BIT * (2 * p)) by (nonlinear_arith)
            requires
                0 <= f < HIDDEN_BIT,
                p > 0,
        ;
    }
}

/// The bands follow one another.
proof fn lemma_band_start_increases(e1: int, e2: int)
    requires
        0 <= e1 <= e2,
    ensures
        band_start(e1) <= band_start(e2),
{
    if 0 < e1 < e2 {
        lemma_pow2_strictly_increases((e1 - 1) as nat, (e2 - 1) as nat);
        let lower = pow2((e1 - 1) as nat) as int;
        let upper = pow2((e2 - 1) as nat) as int;
        assert(HIDDEN_BIT * lower <= HIDDEN_BIT * upper) by (nonlinear_arith)
            requires
                lower < upper,
        ;
    } else if e1 == 0 && e2 > 0 {
        lemma_pow2_pos((e2 - 1) as nat);
        let upper = pow2((e2 - 1) as nat) as int;
        assert(0 <= HIDDEN_BIT * upper) by (nonlinear_arith)
            requires
                upper > 0,
        ;
    }
}

/// A larger magnitude of the pattern encodes a larger absolute value.
pub proof fn lemma_scaled_magnitude_increases(a: Scalar, b: Scalar)
    requires
        a.magnitude() < b.magnitude(),
    ensures
        0 <= a.scaled_magnitude() < b.scaled_magnitude(),
{
    let ea = a.exponent_field();
    let eb = b.exponent_field();
    let fa = a.fraction_field();
    let fb = b.fraction_field();
    lemma_band(a);
    lemma_band(b);
    lemma_band_start_increases(0, ea);
    if ea == eb {
        if ea > 0 {
            let p = pow2((ea - 1) as nat) as int;
            lemma_pow2_pos((ea - 1) as nat);
            assert((HIDDEN_BIT + fa) * p < (HIDDEN_BIT + fb) * p) by (nonlinear_arith)
                requires
                    fa < fb,
                    p > 0,
            ;
        }
    } else {
        lemma_band_start_increases(ea + 1, eb);
    }
}

/// The order of the scalars is the order of the values that they encode:
/// where neither is a NaN, `a <= b` holds exactly when the value of `a` is at
/// most the value of `b`, and `a < b` exactly when it is less. Both zeros
/// encode the value 0.
pub proof fn lemma_order_is_numeric(a: Scalar, b: Scalar)
    requires
        !a.spec_is_nan(),
        !b.spec_is_nan(),
    ensures
        a.spec_le(b) <==> a.scaled_value() <= b.scaled_value(),
        a.spec_lt(b) <==> a.scaled_value() < b.scaled_value(),
        a.magnitude() == 0 <==> a.scaled_value() == 0,
{
    let zero = Scalar { bits: ZERO_BITS };
    if a.magnitude() < b.magnitude() {
        lemma_scaled_magnitude_increases(a, b);
    } else if b.magnitude() < a.magnitude() {
        lemma_scaled_magnitude_increases(b, a);
    }
    if zero.magnitude() < a.magnitude() {
        lemma_scaled_magnitude_increases(zero, a);
    }
    if zero.magnitude() < b.magnitude() {
        lemma_scaled_magnitude_increases(zero, b);
    }
}

/// The named patterns encode the values in their names: `0.0` is 0, `1.0` is
/// 2^149 units of 2^-149, and `90.0` is 90 times as much.
pub proof fn lemma_named_values()
    ensures
        (Scalar { bits: ZERO_BITS }).scaled_value() == 0,
        (Scalar { bits: ONE_BITS }).scaled_value() == pow2(149),
        (Scalar { bits: NINETY_BITS }).scaled_value() == 90 * pow2(149),
{
    lemma2_to64();
    lemma_pow2_adds(23, 126);
    lemma_pow2_adds(17, 132);
    let one = Scalar { bits: ONE_BITS };
    assert(one.exponent_field() == 127 && one.fraction_field() == 0);
    let ninety = Scalar { bits: NINETY_BITS };
    assert(ninety.exponent_field() == 133 && ninety.fraction_field() == 0x34_0000);
    let p = pow2(132) as int;
    let q = pow2(17) as int;
    assert((HIDDEN_BIT + 0x34_0000) * p == 90 * (q * p)) by (nonlinear_arith)
        requires
            q == 0x2_0000,
    ;
}

/// Membership in a range is membership of the encoded value in the range of
/// the encoded bounds.
pub proof fn lemma_within_is_numeric(x: Scalar, lo: Scalar, hi: Scalar)
    requires
        !lo.spec_is_nan(),
        !hi.spec_is_nan(),
    ensures
        x.spec_within(lo, hi) <==> !x.spec_is_nan() && lo.scaled_value() <= x.scaled_value()
            <= hi.scaled_value(),
{
    if !x.spec_is_nan() {
        lemma_order_is_numeric(lo, x);
        lemma_order_is_numeric(x, hi);
    }
}

} // verus!
