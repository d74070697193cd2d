//! Formulas over double precision numbers.
//!
//! The library decides which formula gives a value; carrying out the floating
//! point operations is left to whoever consumes the tree. A node stands for one
//! operation on IEEE 754 doubles, applied to the values of its children; only
//! [`Expr::Wrap`] stands for a series of them, one per turn.
use crate::number::Real;
use vstd::prelude::*;

verus! {

/// A floating point formula.
#[derive(Debug, PartialEq)]
pub enum Expr {
    /// A double.
    Lit(Real),
    /// A single precision number, by its bits, widened to a double.
    Single(u32),
    /// A signed integer, converted to a double.
    Int(i64),
    /// An unsigned integer, converted to a double.
    Uint(u64),
    Neg(Box<Expr>),
    Abs(Box<Expr>),
    Sqrt(Box<Expr>),
    Sin(Box<Expr>),
    Cos(Box<Expr>),
    Asin(Box<Expr>),
    Atan(Box<Expr>),
    Exp(Box<Expr>),
    Floor(Box<Expr>),
    Round(Box<Expr>),
    /// 1 or -1 with the sign of the operand.
    Signum(Box<Expr>),
    /// An angle, with full turns taken away or added until it lies within half a
    /// turn of zero.
    Wrap(Box<Expr>),
    /// Degrees to radians.
    ToRadians(Box<Expr>),
    /// Radians to degrees.
    ToDegrees(Box<Expr>),
    /// Rounded to single precision.
    ToSingle(Box<Expr>),
    /// Truncated to a whole number from 0 to 4294967295; 0 for what is not a number.
    ToWord(Box<Expr>),
    Add(Box<Expr>, Box<Expr>),
    Sub(Box<Expr>, Box<Expr>),
    Mul(Box<Expr>, Box<Expr>),
    Div(Box<Expr>, Box<Expr>),
    /// The remainder with the sign of the dividend.
    Rem(Box<Expr>, Box<Expr>),
    /// The remainder that is not negative.
    RemEuclid(Box<Expr>, Box<Expr>),
    /// The angle of the point whose ordinate is first and abscissa second.
    Atan2(Box<Expr>, Box<Expr>),
    /// The first operand to the power of the second.
    Powf(Box<Expr>, Box<Expr>),
    Min(Box<Expr>, Box<Expr>),
    Max(Box<Expr>, Box<Expr>),
    /// The first operand, kept within the second and the third.
    Clamp(Box<Expr>, Box<Expr>, Box<Expr>),
    /// The third operand if the first is below the second, else the fourth.
    IfLess(Box<Expr>, Box<Expr>, Box<Expr>, Box<Expr>),
}

impl Expr {
    #[verifier::allow_in_spec]
    pub fn negated(self) -> (r: Expr)
        returns
            Expr::Neg(Box::new(self)),
    {
        Expr::Neg(Box::new(self))
    }

    #[verifier::allow_in_spec]
    pub fn absolute(self) -> (r: Expr)
        returns
            Expr::Abs(Box::new(self)),
    {
        Expr::Abs(Box::new(self))
    }

    #[verifier::allow_in_spec]
    pub fn sqrt(self) -> (r: Expr)
        returns
            Expr::Sqrt(Box::new(self)),
    {
        Expr::Sqrt(Box::new(self))
    }

    #[verifier::allow_in_spec]
    pub fn sin(self) -> (r: Expr)
        returns
            Expr::Sin(Box::new(self)),
    {
        Expr::Sin(Box::new(self))
    }

    #[verifier::allow_in_spec]
    pub fn cos(self) -> (r: Expr)
        returns
            Expr::Cos(Box::new(self)),
    {
        Expr::Cos(Box::new(self))
    }

    #[verifier::allow_in_spec]
    pub fn asin(self) -> (r: Expr)
        returns
            Expr::Asin(Box::new(self)),
    {
        Expr::Asin(Box::new(self))
    }

    #[verifier::allow_in_spec]
    pub fn atan(self) -> (r: Expr)
        returns
            Expr::Atan(Box::new(self)),
    {
        Expr::Atan(Box::new(self))
    }

    #[verifier::allow_in_spec]
    pub fn exp(self) -> (r: Expr)
        returns
            Expr::Exp(Box::new(self)),
    {
        Expr::Exp(Box::new(self))
    }

    #[verifier::allow_in_spec]
    pub fn floor(self) -> (r: Expr)
        returns
            Expr::Floor(Box::new(self)),
    {
        Expr::Floor(Box::new(self))
    }

    #[verifier::allow_in_spec]
    pub fn round(self) -> (r: Expr)
        returns
            Expr::Round(Box::new(self)),
    {
        Expr::Round(Box::new(self))
    }

    #[verifier::allow_in_spec]
    pub fn signum(self) -> (r: Expr)
        returns
            Expr::Signum(Box::new(self)),
    {
        Expr::Signum(Box::new(self))
    }

    #[verifier::allow_in_spec]
    pub fn to_radians(self) -> (r: Expr)
        returns
            Expr::ToRadians(Box::new(self)),
    {
        Expr::ToRadians(Box::new(self))
    }

    #[verifier::allow_in_spec]
    pub fn to_degrees(self) -> (r: Expr)
        returns
            Expr::ToDegrees(Box::new(self)),
    {
        Expr::ToDegrees(Box::new(self))
    }

    #[verifier::allow_in_spec]
    pub fn to_single(self) -> (r: Expr)
        returns
            Expr::ToSingle(Box::new(self)),
    {
        Expr::ToSingle(Box::new(self))
    }

    #[verifier::allow_in_spec]
    pub fn to_word(self) -> (r: Expr)
        returns
            Expr::ToWord(Box::new(self)),
    {
        Expr::ToWord(Box::new(self))
    }

    #[verifier::allow_in_spec]
    pub fn plus(self, other: Expr) -> (r: Expr)
        returns
            Expr::Add(Box::new(self), Box::new(other)),
    {
        Expr::Add(Box::new(self), Box::new(other))
    }

    #[verifier::allow_in_spec]
    pub fn minus(self, other: Expr) -> (r: Expr)
        returns
            Expr::Sub(Box::new(self), Box::new(other)),
    {
        Expr::Sub(Box::new(self), Box::new(other))
    }

    #[verifier::allow_in_spec]
    pub fn times(self, other: Expr) -> (r: Expr)
        returns
            Expr::Mul(Box::new(self), Box::new(other)),
    {
        Expr::Mul(Box::new(self), Box::new(other))
    }

    #[verifier::allow_in_spec]
    pub fn over(self, other: Expr) -> (r: Expr)
        returns
            Expr::Div(Box::new(self), Box::new(other)),
    {
        Expr::Div(Box::new(self), Box::new(other))
    }

    #[verifier::allow_in_spec]
    pub fn remainder(self, other: Expr) -> (r: Expr)
        returns
            Expr::Rem(Box::new(self), Box::new(other)),
    {
        Expr::Rem(Box::new(self), Box::new(other))
    }

    #[verifier::allow_in_spec]
    pub fn rem_euclid(self, other: Expr) -> (r: Expr)
        returns
            Expr::RemEuclid(Box::new(self), Box::new(other)),
    {
        Expr::RemEuclid(Box::new(self), Box::new(other))
    }

    #[verifier::allow_in_spec]
    pub fn atan2(self, other: Expr) -> (r: Expr)
        returns
            Expr::Atan2(Box::new(self), Box::new(other)),
    {
        Expr::Atan2(Box::new(self), Box::new(other))
    }

    #[verifier::allow_in_spec]
    pub fn powf(self, other: Expr) -> (r: Expr)
        returns
            Expr::Powf(Box::new(self), Box::new(other)),
    {
        Expr::Powf(Box::new(self), Box::new(other))
    }

    #[verifier::allow_in_spec]
    pub fn min(self, other: Expr) -> (r: Expr)
        returns
            Expr::Min(Box::new(self), Box::new(other)),
    {
        Expr::Min(Box::new(self), Box::new(other))
    }

    #[verifier::allow_in_spec]
    pub fn max(self, other: Expr) -> (r: Expr)
        returns
            Expr::Max(Box::new(self), Box::new(other)),
    {
        Expr::Max(Box::new(self), Box::new(other))
    }

    /// The angle within half a turn of zero.
    #[verifier::allow_in_spec]
    pub fn wrapped(self) -> (r: Expr)
        returns
            Expr::Wrap(Box::new(self)),
    {
        Expr::Wrap(Box::new(self))
    }

    /// `self`, kept within `low` and `high`.
    #[verifier::allow_in_spec]
    pub fn clamped(self, low: Expr, high: Expr) -> (r: Expr)
        returns
            Expr::Clamp(Box::new(self), Box::new(low), Box::new(high)),
    {
        Expr::Clamp(Box::new(self), Box::new(low), Box::new(high))
    }

    /// `yes` where `self` is below `bound`, else `no`.
    #[verifier::allow_in_spec]
    pub fn if_less(self, bound: Expr, yes: Expr, no: Expr) -> (r: Expr)
        returns
            Expr::IfLess(Box::new(self), Box::new(bound), Box::new(yes), Box::new(no)),
    {
        Expr::IfLess(Box::new(self), Box::new(bound), Box::new(yes), Box::new(no))
    }
}

/// The formula that is one constant, given by its bits.
#[verifier::allow_in_spec]
pub fn lit(bits: u64) -> (r: Expr)
    returns
        Expr::Lit(Real { bits }),
{
    Expr::Lit(Real { bits })
}

/// The formula that is one known number.
#[verifier::allow_in_spec]
pub fn num(x: Real) -> (r: Expr)
    returns
        Expr::Lit(x),
{
    Expr::Lit(x)
}

} // verus!
