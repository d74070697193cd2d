//! Double precision numbers, held as their IEEE 754 bit patterns.
//!
//! A `Real` is compared, classified and negated on its bits alone, so every
//! decision that the library takes on a number is plain integer reasoning.
//! Arithmetic is never carried out here: formulas are handed out as
//! [`crate::expr::Expr`] trees.
use vstd::prelude::*;

verus! {

/// The weight of the sign bit.
pub const SIGN_WEIGHT: u64 = 0x8000_0000_0000_0000;

/// The bit pattern of positive infinity; a magnitude above it is not a number.
pub const INFINITY_BITS: u64 = 0x7FF0_0000_0000_0000;

/// The bit pattern that stands for every double that is not a number.
pub const NAN_BITS: u64 = 0x7FF8_0000_0000_0000;

/// The bit pattern that stands for every single precision number that is not a number.
pub const NAN_SINGLE: u32 = 0x7FC0_0000;

/// A double precision number.
#[derive(Debug, Clone, Copy, PartialEq, Eq, Structural)]
pub struct Real {
    pub bits: u64,
}

impl Real {
    /// The bit pattern without its sign.
    pub open spec fn magnitude(self) -> int {
        if self.bits < SIGN_WEIGHT {
            self.bits as int
        } else {
            self.bits - SIGN_WEIGHT
        }
    }

    /// The number's place in the order of all numbers. Both zeros have rank 0.
    pub open spec fn rank(self) -> int {
        if self.bits < SIGN_WEIGHT {
            self.magnitude()
        } else {
            -self.magnitude()
        }
    }

    pub open spec fn nan(self) -> bool {
        self.magnitude() > INFINITY_BITS
    }

    pub open spec fn finite(self) -> bool {
        self.magnitude() < INFINITY_BITS
    }

    /// `self < other`, false as soon as one side is not a number.
    pub open spec fn lt(self, other: Real) -> bool {
        !self.nan() && !other.nan() && self.rank() < other.rank()
    }

    /// `self <= other`, false as soon as one side is not a number.
    pub open spec fn le(self, other: Real) -> bool {
        !self.nan() && !other.nan() && self.rank() <= other.rank()
    }

    /// The number without its sign.
    pub open spec fn unsigned(self) -> Real {
        Real { bits: self.magnitude() as u64 }
    }

    /// The number with the opposite sign.
    pub open spec fn opposite(self) -> Real {
        if self.bits < SIGN_WEIGHT {
            Real { bits: (self.bits + SIGN_WEIGHT) as u64 }
        } else {
            Real { bits: (self.bits - SIGN_WEIGHT) as u64 }
        }
    }

    /// Zero, of either sign.
    pub open spec fn zero(self) -> bool {
        self.magnitude() == 0
    }

    /// The sign bit is set.
    pub open spec fn negative(self) -> bool {
        self.bits >= SIGN_WEIGHT
    }

    fn magnitude_bits(self) -> (m: u64)
        ensures
            m == self.magnitude(),
    {
        if self.bits < SIGN_WEIGHT {
            self.bits
        } else {
            self.bits - SIGN_WEIGHT
        }
    }

    fn rank_value(self) -> (r: i128)
        ensures
            r == self.rank(),
    {
        if self.bits < SIGN_WEIGHT {
            self.bits as i128
        } else {
            -((self.bits - SIGN_WEIGHT) as i128)
        }
    }

    pub fn is_nan(self) -> (r: bool)
        ensures
            r == self.nan(),
    {
        self.magnitude_bits() > INFINITY_BITS
    }

    /// The number itself, or the one pattern that stands for all that are not a number.
    #[verifier::allow_in_spec]
    pub fn canonical(self) -> (r: Real)
        returns
            (if self.nan() {
                Real { bits: NAN_BITS }
            } else {
                self
            }),
    {
        if self.is_nan() {
            Real { bits: NAN_BITS }
        } else {
            self
        }
    }

    pub fn is_finite(self) -> (r: bool)
        ensures
            r == self.finite(),
    {
        self.magnitude_bits() < INFINITY_BITS
    }

    /// True of both infinities.
    pub fn is_infinite(self) -> (r: bool)
        ensures
            r == (self.magnitude() == INFINITY_BITS),
    {
        self.magnitude_bits() == INFINITY_BITS
    }

    pub fn less_than(self, other: Real) -> (r: bool)
        ensures
            r == self.lt(other),
    {
        !self.is_nan() && !other.is_nan() && self.rank_value() < other.rank_value()
    }

    pub fn at_most(self, other: Real) -> (r: bool)
        ensures
            r == self.le(other),
    {
        !self.is_nan() && !other.is_nan() && self.rank_value() <= other.rank_value()
    }

    pub fn is_zero(self) -> (r: bool)
        ensures
            r == self.zero(),
    {
        self.magnitude_bits() == 0
    }

    pub fn is_negative(self) -> (r: bool)
        ensures
            r == self.negative(),
    {
        self.bits >= SIGN_WEIGHT
    }

    pub fn abs(self) -> (r: Real)
        ensures
            r == self.unsigned(),
    {
        Real { bits: self.magnitude_bits() }
    }

    pub fn neg(self) -> (r: Real)
        ensures
            r == self.opposite(),
    {
        if self.bits < SIGN_WEIGHT {
            Real { bits: self.bits + SIGN_WEIGHT }
        } else {
            Real { bits: self.bits - SIGN_WEIGHT }
        }
    }
}

/// Of two numbers, neither of which is NaN, exactly one of `<`, `>` and equal
/// rank holds.
pub proof fn order_is_total(a: Real, b: Real)
    requires
        !a.nan(),
        !b.nan(),
    ensures
        a.lt(b) || b.lt(a) || a.rank() == b.rank(),
        !(a.lt(b) && b.lt(a)),
        a.le(b) == !b.lt(a),
{
}

/// Nothing is below, above or equal to NaN.
pub proof fn nan_is_unordered(a: Real, b: Real)
    requires
        a.nan() || b.nan(),
    ensures
        !a.lt(b),
        !a.le(b),
{
}

/// The order is transitive.
pub proof fn order_is_transitive(a: Real, b: Real, c: Real)
    requires
        a.le(b),
        b.le(c),
    ensures
        a.le(c),
        a.lt(b) || b.lt(c) ==> a.lt(c),
{
}

/// Changing the sign twice changes nothing, and turns the order around.
pub proof fn negation_reverses_order(a: Real, b: Real)
    ensures
        a.opposite().opposite() == a,
        a.lt(b) == b.opposite().lt(a.opposite()),
        a.opposite().unsigned() == a.unsigned(),
{
}

/// A number that may be missing, with one pattern for all that are not a number.
#[verifier::allow_in_spec]
pub fn canonical_real(x: Option<Real>) -> (r: Option<Real>)
    returns
        (match x {
            Some(a) => Some(a.canonical()),
            None => None,
        }),
{
    match x {
        Some(a) => Some(a.canonical()),
        None => None,
    }
}

/// The bits of a single precision number that may be missing, with one pattern for all that
/// are not a number.
#[verifier::allow_in_spec]
pub fn canonical_single(x: Option<u32>) -> (r: Option<u32>)
    returns
        (match x {
            Some(a) => if (0x7F80_0000 < a && a < 0x8000_0000) || 0xFF80_0000 < a {
                Some(NAN_SINGLE)
            } else {
                Some(a)
            },
            None => None,
        }),
{
    match x {
        Some(a) => if (0x7F80_0000 < a && a < 0x8000_0000) || 0xFF80_0000 < a {
            Some(NAN_SINGLE)
        } else {
            Some(a)
        },
        None => None,
    }
}

} // verus!
