//! Single-precision numbers held by their bit patterns.
use vstd::arithmetic::power2::{
    lemma_pow2_pos, lemma_pow2_strictly_increases, lemma_pow2_unfold, pow2,
};
use vstd::prelude::*;

verus! {

/// The sign bit of a binary32 pattern.
pub const SIGN_BIT: u32 = 0x8000_0000;

/// The pattern of positive infinity: every exponent bit set, no fraction bit.
pub const INFINITY_BITS: u32 = 0x7F80_0000;

/// The number of fraction patterns under one exponent: two to the 23rd.
pub const FRACTION_SPAN: u32 = 0x0080_0000;

/// An IEEE 754 binary32 number, held by its 32 bits.
///
/// The shader reads these bits as a floating-point number; this crate only
/// stores them, tells the classes of number apart and compares them. Two
/// scalars are equal when their bits are equal, so a NaN equals itself and the
/// two zeros differ.
#[derive(Clone, Copy, Debug, PartialEq, Eq, Hash, Structural)]
pub struct Scalar {
    pub bits: u32,
}

impl Scalar {
    /// Whether the sign bit is set. It may be set on a zero and on a NaN.
    pub open spec fn sign_negative(self) -> bool {
        self.bits >= SIGN_BIT
    }

    /// The bits without the sign bit.
    pub open spec fn magnitude(self) -> int {
        if self.sign_negative() {
            self.bits - SIGN_BIT
        } else {
            self.bits as int
        }
    }

    /// Whether the bits encode no number at all.
    pub open spec fn nan(self) -> bool {
        self.magnitude() > INFINITY_BITS
    }

    /// Whether the bits encode a zero, a subnormal or a normal number.
    pub open spec fn finite(self) -> bool {
        self.magnitude() < INFINITY_BITS
    }

    /// The exponent field: the bits between the sign and the fraction.
    pub open spec fn exponent(self) -> int {
        self.magnitude() / (FRACTION_SPAN as int)
    }

    /// The fraction field: the low 23 bits.
    pub open spec fn fraction(self) -> int {
        self.magnitude() % (FRACTION_SPAN as int)
    }

    /// The gap between this number and the next one away from zero, counted
    /// in units of two to the power of -149.
    pub open spec fn step(self) -> int {
        if self.exponent() == 0 {
            1
        } else {
            pow2((self.exponent() - 1) as nat) as int
        }
    }

    /// How far the number is from zero, counted in units of two to the power
    /// of -149. That unit is the least positive binary32 number, and every
    /// finite one is a whole multiple of it. With exponent field 0 the size
    /// is the fraction; otherwise it is the fraction with a leading one,
    /// doubled once for each step of the exponent above 1. An infinity gets
    /// the size that the next exponent would give, beyond every finite number.
    pub open spec fn size(self) -> int {
        if self.exponent() == 0 {
            self.fraction()
        } else {
            (FRACTION_SPAN + self.fraction()) * self.step()
        }
    }

    /// The number itself, in units of two to the power of -149.
    pub open spec fn quanta(self) -> int {
        if self.sign_negative() {
            -self.size()
        } else {
            self.size()
        }
    }

    /// Whether the scalar is finite and stands for `num / den` exactly.
    pub open spec fn is_exactly(self, num: int, den: int) -> bool {
        self.finite() && den > 0 && self.quanta() * den == num * pow2(149)
    }

    /// Whether the scalar is finite and no further from `num / den` than
    /// half of its step.
    pub open spec fn is_within_half_step_of(self, num: int, den: int) -> bool {
        &&& self.finite()
        &&& den > 0
        &&& -(den * self.step()) <= 2 * (self.quanta() * den - num * pow2(149)) <= den
            * self.step()
    }

    /// The place of a number on the number line, counted in representable
    /// numbers from zero. Of two numbers the one with the greater rank is the
    /// greater number, see `lemma_rank_orders_numbers`; the two zeros share
    /// rank 0. It means nothing for a NaN.
    pub open spec fn rank(self) -> int {
        if self.sign_negative() {
            -self.magnitude()
        } else {
            self.magnitude()
        }
    }

    /// Whether `self` and `floor` are numbers and `self` is not below `floor`.
    pub open spec fn at_least(self, floor: Scalar) -> bool {
        !self.nan() && !floor.nan() && self.rank() >= floor.rank()
    }

    /// The scalar with the given bits.
    pub fn from_bits(bits: u32) -> (r: Scalar)
        ensures
            r.bits == bits,
    {
        Scalar { bits }
    }

    /// The bits of the scalar.
    pub fn to_bits(self) -> (r: u32)
        ensures
            r == self.bits,
    {
        self.bits
    }

    /// Positive zero.
    pub fn zero() -> (r: Scalar)
        ensures
            r.bits == 0,
    {
        Scalar { bits: 0 }
    }

    /// Tells whether the sign bit is set.
    pub fn is_sign_negative(self) -> (r: bool)
        ensures
            r == self.sign_negative(),
    {
        self.bits >= SIGN_BIT
    }

    /// The bits without the sign bit.
    fn abs_bits(self) -> (r: u32)
        ensures
            r == self.magnitude(),
    {
        if self.bits >= SIGN_BIT {
            self.bits - SIGN_BIT
        } else {
            self.bits
        }
    }

    /// Tells whether the scalar is a NaN.
    pub fn is_nan(self) -> (r: bool)
        ensures
            r == self.nan(),
    {
        self.abs_bits() > INFINITY_BITS
    }

    /// Tells whether the scalar is neither infinite nor a NaN.
    pub fn is_finite(self) -> (r: bool)
        ensures
            r == self.finite(),
    {
        self.abs_bits() < INFINITY_BITS
    }

    /// Tells whether both scalars are numbers and `self` is not below `floor`.
    pub fn is_at_least(self, floor: Scalar) -> (r: bool)
        ensures
            r == self.at_least(floor),
    {
        if self.is_nan() || floor.is_nan() {
            return false;
        }
        let a: u32 = self.abs_bits();
        let b: u32 = floor.abs_bits();
        if self.is_sign_negative() {
            // -a >= rank(floor): only a floor at or below zero can be reached.
            if floor.is_sign_negative() {
                a <= b
            } else {
                a == 0 && b == 0
            }
        } else if floor.is_sign_negative() {
            true
        } else {
            a >= b
        }
    }
}

/// Among the scalars that are no NaN, more bits behind the sign mean a
/// greater size.
pub proof fn lemma_size_grows_with_magnitude(a: Scalar, b: Scalar)
    requires
        !a.nan(),
        !b.nan(),
        a.magnitude() < b.magnitude(),
    ensures
        a.size() < b.size(),
{
    let span = FRACTION_SPAN as int;
    let (ea, fa) = (a.exponent(), a.fraction());
    let (eb, fb) = (b.exponent(), b.fraction());
    assert(0 <= ea <= eb <= 255);
    if eb > 0 {
        lemma_pow2_pos((eb - 1) as nat);
    }
    if ea == eb {
        assert(fa < fb);
        if ea > 0 {
            let p = b.step();
            assert((span + fa) * p < (span + fb) * p) by (nonlinear_arith)
                requires
                    fa < fb,
                    p > 0,
            ;
        }
    } else {
        let q = b.step();
        assert(span * q <= (span + fb) * q) by (nonlinear_arith)
            requires
                fb >= 0,
                q > 0,
        ;
        if ea == 0 {
            assert(span * 1 <= span * q) by (nonlinear_arith)
                requires
                    span > 0,
                    q >= 1,
            ;
        } else {
            let p = a.step();
            lemma_pow2_pos((ea - 1) as nat);
            lemma_pow2_unfold(ea as nat);
            if ea < eb - 1 {
                lemma_pow2_strictly_increases(ea as nat, (eb - 1) as nat);
            }
            assert(2 * p <= q);
            assert((span + fa) * p < span * q) by (nonlinear_arith)
                requires
                    0 <= fa < span,
                    p > 0,
                    2 * p <= q,
            ;
        }
    }
}

/// The order of the ranks is the order of the numbers, and of two scalars
/// that are no NaN the first is at least the second exactly when its number
/// is.
pub proof fn lemma_rank_orders_numbers(a: Scalar, b: Scalar)
    requires
        !a.nan(),
        !b.nan(),
    ensures
        a.rank() <= b.rank() <==> a.quanta() <= b.quanta(),
        a.rank() == b.rank() <==> a.quanta() == b.quanta(),
        a.at_least(b) <==> a.quanta() >= b.quanta(),
{
    lemma_size_follows_magnitude(a, b);
    lemma_size_follows_magnitude(a, Scalar { bits: 0 });
    lemma_size_follows_magnitude(b, Scalar { bits: 0 });
    assert((Scalar { bits: 0 }).size() == 0);
}

/// Sizes compare as the bits behind the sign do.
proof fn lemma_size_follows_magnitude(a: Scalar, b: Scalar)
    requires
        !a.nan(),
        !b.nan(),
    ensures
        a.magnitude() <= b.magnitude() <==> a.size() <= b.size(),
        a.magnitude() == b.magnitude() <==> a.size() == b.size(),
{
    if a.magnitude() < b.magnitude() {
        lemma_size_grows_with_magnitude(a, b);
    } else if b.magnitude() < a.magnitude() {
        lemma_size_grows_with_magnitude(b, a);
    }
}

} // verus!
