//! Double-precision numbers, held by their bits.
//!
//! A [`Scalar`] is the 64-bit binary64 encoding of a number: one sign bit,
//! eleven exponent bits, fifty-two fraction bits. Everything this crate decides
//! about a number (is it positive, which of two is nearer, are they equal) can be
//! read off that encoding with integer arithmetic, and that is what this module
//! does. Sums, products, quotients and roots are not taken here: that is the
//! part of the arithmetic which the caller brings.
use vstd::prelude::*;

verus! {

/// The sign bit of the encoding.
pub const SIGN_BIT: u64 = 0x8000_0000_0000_0000;

/// The encoding of positive infinity. Encodings whose magnitude is larger are
/// not numbers.
pub const INFINITY_BITS: u64 = 0x7FF0_0000_0000_0000;

/// The encoding of 0.
pub const ZERO_BITS: u64 = 0;

/// The encoding of 1.
pub const ONE_BITS: u64 = 0x3FF0_0000_0000_0000;

/// The encoding of 2.
pub const TWO_BITS: u64 = 0x4000_0000_0000_0000;

/// The encoding of one half.
pub const HALF_BITS: u64 = 0x3FE0_0000_0000_0000;

/// The encoding of 4.
pub const FOUR_BITS: u64 = 0x4010_0000_0000_0000;

/// The encoding of 0.00001. Two coordinates, matrix entries or colour
/// components that are no further apart count as equal.
pub const TOLERANCE_BITS: u64 = 0x3EE4_F8B5_88E3_68F1;

/// The encoding of 0.0001, the distance by which a shading point is lifted off
/// its surface and below which a ray counts as parallel to a plane.
pub const EPSILON_BITS: u64 = 0x3F1A_36E2_EB1C_432D;

/// A double-precision number, held by its encoding.
#[derive(Clone, Copy, Debug)]
pub struct Scalar {
    pub bits: u64,
}

impl Scalar {
    /// The sign bit is set. True of negative numbers and of negative zero.
    pub open spec fn sign(self) -> bool {
        self.bits >= SIGN_BIT
    }

    /// The encoding without its sign bit.
    pub open spec fn magnitude(self) -> int {
        if self.bits >= SIGN_BIT {
            self.bits - SIGN_BIT
        } else {
            self.bits as int
        }
    }

    /// The encoding is not that of a number.
    pub open spec fn nan(self) -> bool {
        self.magnitude() > INFINITY_BITS
    }

    /// Where the number stands on the number line, infinities included: for two
    /// numbers, the smaller has the smaller rank, and both zeros have rank 0.
    pub open spec fn rank(self) -> int {
        if self.sign() {
            -self.magnitude()
        } else {
            self.magnitude()
        }
    }

    /// Where the encoding stands in the total order of all encodings: negative
    /// zero comes just before positive zero, and what is not a number comes
    /// beyond the infinity of its sign.
    pub open spec fn total_rank(self) -> int {
        if self.sign() {
            -self.magnitude() - 1
        } else {
            self.magnitude()
        }
    }

    /// `self < other` as numbers: false when either is not a number.
    pub open spec fn less(self, other: Scalar) -> bool {
        !self.nan() && !other.nan() && self.rank() < other.rank()
    }

    /// `self == other` as numbers: false when either is not a number, true of
    /// the two zeros.
    pub open spec fn equal(self, other: Scalar) -> bool {
        !self.nan() && !other.nan() && self.rank() == other.rank()
    }

    /// `self > 0` as numbers.
    pub open spec fn positive(self) -> bool {
        !self.nan() && self.rank() > 0
    }

    /// `self < 0` as numbers.
    pub open spec fn negative(self) -> bool {
        !self.nan() && self.rank() < 0
    }

    /// The encoding with its sign bit flipped.
    pub open spec fn negated(self) -> Scalar {
        Scalar {
            bits: if self.bits >= SIGN_BIT {
                (self.bits - SIGN_BIT) as u64
            } else {
                (self.bits + SIGN_BIT) as u64
            },
        }
    }

    /// The encoding with its sign bit cleared.
    pub open spec fn absolute(self) -> Scalar {
        Scalar { bits: self.magnitude() as u64 }
    }

    /// The number 0, for contracts.
    pub open spec fn spec_zero() -> Scalar {
        Scalar { bits: ZERO_BITS }
    }

    /// The number 1, for contracts.
    pub open spec fn spec_one() -> Scalar {
        Scalar { bits: ONE_BITS }
    }

    /// The number 2, for contracts.
    pub open spec fn spec_two() -> Scalar {
        Scalar { bits: TWO_BITS }
    }

    /// One half, for contracts.
    pub open spec fn spec_half() -> Scalar {
        Scalar { bits: HALF_BITS }
    }

    /// The number 4, for contracts.
    pub open spec fn spec_four() -> Scalar {
        Scalar { bits: FOUR_BITS }
    }

    /// The tolerance of equality, for contracts.
    pub open spec fn spec_tolerance() -> Scalar {
        Scalar { bits: TOLERANCE_BITS }
    }

    /// The surface offset, for contracts.
    pub open spec fn spec_epsilon() -> Scalar {
        Scalar { bits: EPSILON_BITS }
    }

    /// The number with the given encoding.
    pub fn from_bits(bits: u64) -> (r: Scalar)
        ensures
            r.bits == bits,
    {
        Scalar { bits }
    }

    /// The encoding of the number.
    pub fn to_bits(&self) -> (r: u64)
        ensures
            r == self.bits,
    {
        self.bits
    }

    /// The number 0.
    pub fn zero() -> (r: Scalar)
        ensures
            r == Scalar::spec_zero(),
    {
        Scalar { bits: ZERO_BITS }
    }

    /// The number 1.
    pub fn one() -> (r: Scalar)
        ensures
            r == Scalar::spec_one(),
    {
        Scalar { bits: ONE_BITS }
    }

    /// The number 2.
    pub fn two() -> (r: Scalar)
        ensures
            r == Scalar::spec_two(),
    {
        Scalar { bits: TWO_BITS }
    }

    /// One half.
    pub fn half() -> (r: Scalar)
        ensures
            r == Scalar::spec_half(),
    {
        Scalar { bits: HALF_BITS }
    }

    /// The number 4.
    pub fn four() -> (r: Scalar)
        ensures
            r == Scalar::spec_four(),
    {
        Scalar { bits: FOUR_BITS }
    }

    /// The tolerance of equality, 0.00001.
    pub fn tolerance() -> (r: Scalar)
        ensures
            r == Scalar::spec_tolerance(),
    {
        Scalar { bits: TOLERANCE_BITS }
    }

    /// The surface offset, 0.0001.
    pub fn epsilon() -> (r: Scalar)
        ensures
            r == Scalar::spec_epsilon(),
    {
        Scalar { bits: EPSILON_BITS }
    }

    /// Whether the encoding is not that of a number.
    pub fn is_nan(&self) -> (r: bool)
        ensures
            r == self.nan(),
    {
        self.abs().bits > INFINITY_BITS
    }

    /// The number without its sign.
    pub fn abs(&self) -> (r: Scalar)
        ensures
            r == self.absolute(),
    {
        if self.bits >= SIGN_BIT {
            Scalar { bits: self.bits - SIGN_BIT }
        } else {
            Scalar { bits: self.bits }
        }
    }

    /// `self < other`.
    pub fn lt(&self, other: &Scalar) -> (r: bool)
        ensures
            r == self.less(*other),
    {
        if self.is_nan() || other.is_nan() {
            return false;
        }
        let a: u64 = self.abs().bits;
        let b: u64 = other.abs().bits;
        if self.bits >= SIGN_BIT {
            if other.bits >= SIGN_BIT {
                b < a
            } else {
                a != 0 || b != 0
            }
        } else {
            if other.bits >= SIGN_BIT {
                false
            } else {
                a < b
            }
        }
    }

    /// `self <= other`.
    pub fn le(&self, other: &Scalar) -> (r: bool)
        ensures
            r == (self.less(*other) || self.equal(*other)),
    {
        self.lt(other) || self == other
    }

    /// `self > other`.
    pub fn gt(&self, other: &Scalar) -> (r: bool)
        ensures
            r == other.less(*self),
    {
        other.lt(self)
    }

    /// `self >= other`.
    pub fn ge(&self, other: &Scalar) -> (r: bool)
        ensures
            r == (other.less(*self) || self.equal(*other)),
    {
        other.lt(self) || self == other
    }

    /// Whether `self` comes strictly before `other` in the total order of
    /// encodings.
    pub fn total_lt(&self, other: &Scalar) -> (r: bool)
        ensures
            r == (self.total_rank() < other.total_rank()),
    {
        let a: u64 = self.abs().bits;
        let b: u64 = other.abs().bits;
        if self.bits >= SIGN_BIT {
            if other.bits >= SIGN_BIT {
                b < a
            } else {
                true
            }
        } else {
            if other.bits >= SIGN_BIT {
                false
            } else {
                a < b
            }
        }
    }
}

impl core::ops::Neg for Scalar {
    type Output = Scalar;

    /// The number with the opposite sign. Zero, infinity and what is not a
    /// number change their sign bit like any other encoding.
    fn neg(self) -> (r: Scalar) {
        if self.bits >= SIGN_BIT {
            Scalar { bits: self.bits - SIGN_BIT }
        } else {
            Scalar { bits: self.bits + SIGN_BIT }
        }
    }
}

impl vstd::std_specs::ops::NegSpecImpl for Scalar {
    open spec fn obeys_neg_spec() -> bool {
        true
    }

    open spec fn neg_req(self) -> bool {
        true
    }

    open spec fn neg_spec(self) -> Scalar {
        self.negated()
    }
}

impl PartialEq for Scalar {
    /// Equality of numbers: what is not a number equals nothing, and the two
    /// zeros are equal.
    fn eq(&self, other: &Scalar) -> (r: bool) {
        if self.is_nan() || other.is_nan() {
            return false;
        }
        let a: u64 = self.abs().bits;
        let b: u64 = other.abs().bits;
        if a == 0 && b == 0 {
            true
        } else {
            self.bits == other.bits
        }
    }
}

impl vstd::std_specs::cmp::PartialEqSpecImpl for Scalar {
    open spec fn obeys_eq_spec() -> bool {
        true
    }

    open spec fn eq_spec(&self, other: &Scalar) -> bool {
        self.equal(*other)
    }
}

/// Negating twice gives the encoding back.
pub proof fn lemma_neg_involution(a: Scalar)
    ensures
        a.negated().negated() == a,
{
}

/// Negation mirrors the number line: it turns `<` round, and keeps equality.
pub proof fn lemma_neg_reverses_order(a: Scalar, b: Scalar)
    ensures
        a.less(b) == b.negated().less(a.negated()),
        a.equal(b) == a.negated().equal(b.negated()),
        a.negated().nan() == a.nan(),
{
}

/// `<` on numbers is a strict order: nothing is below itself, and it is
/// transitive.
pub proof fn lemma_less_is_strict_order(a: Scalar, b: Scalar, c: Scalar)
    ensures
        !a.less(a),
        a.less(b) ==> !b.less(a),
        a.less(b) && b.less(c) ==> a.less(c),
{
}

/// Of two numbers exactly one of `<`, `==`, `>` holds.
pub proof fn lemma_trichotomy(a: Scalar, b: Scalar)
    requires
        !a.nan(),
        !b.nan(),
    ensures
        a.less(b) || a.equal(b) || b.less(a),
        !(a.less(b) && a.equal(b)),
        !(b.less(a) && a.equal(b)),
{
}

/// On numbers, the total order of encodings refines `<`: a smaller number
/// comes first.
pub proof fn lemma_total_order_refines_less(a: Scalar, b: Scalar)
    ensures
        a.less(b) ==> a.total_rank() < b.total_rank(),
        a.total_rank() == b.total_rank() <==> a == b,
{
}

} // verus!
