//! What the values of formulas keep to, whoever works them out.
//!
//! An evaluation gives every formula its value. Laws on values are stated for every
//! evaluation that keeps to the facts below: to those of double arithmetic in
//! [`faithful`], or to those of exact arithmetic in [`exact`], where a law holds up to
//! rounding.
use crate::expr::{lit, Expr};
use crate::number::Real;
use crate::units::{ONE, PI, TAU, TWO, ZERO};
use vstd::prelude::*;

verus! {

/// 1e6.
pub const MILLION: u64 = 0x412E_8480_0000_0000;

/// 1e12.
pub const TRILLION: u64 = 0x426D_1A94_A200_0000;

/// A number lies within a limit on both sides of zero.
pub open spec fn within(x: Real, limit: Real) -> bool {
    x.unsigned().le(limit)
}

/// A number, kept within two others. What is not a number stays as it is.
pub open spec fn kept(x: Real, low: Real, high: Real) -> Real {
    if x.lt(low) {
        low
    } else if high.lt(x) {
        high
    } else {
        x
    }
}

/// Numbers stand for themselves; signs and choices are exact.
pub open spec fn keeps_choices(ev: spec_fn(Expr) -> Real) -> bool {
    &&& forall|x: Real| #[trigger] ev(Expr::Lit(x)) == x
    &&& forall|a: Expr| #[trigger] ev(a.negated()) == ev(a).opposite()
    &&& forall|a: Expr| #[trigger] ev(a.absolute()) == ev(a).unsigned()
    &&& forall|a: Expr, low: Expr, high: Expr|
        ev(low).le(ev(high)) ==> #[trigger] ev(a.clamped(low, high)) == kept(
            ev(a),
            ev(low),
            ev(high),
        )
    &&& forall|a: Expr, b: Expr, yes: Expr, no: Expr| #[trigger]
        ev(a.if_less(b, yes, no)) == if ev(a).lt(ev(b)) {
            ev(yes)
        } else {
            ev(no)
        }
}

/// Sums and differences: a finite number with any other is a number, and sums of up to
/// 1e12 are finite.
pub open spec fn keeps_sums(ev: spec_fn(Expr) -> Real) -> bool {
    &&& forall|a: Expr, b: Expr|
        ev(a).finite() && !ev(b).nan() ==> !(#[trigger] ev(a.plus(b))).nan()
    &&& forall|a: Expr, b: Expr|
        ev(a).finite() && !ev(b).nan() ==> !(#[trigger] ev(b.minus(a))).nan()
    &&& forall|a: Expr, b: Expr|
        within(ev(a), Real { bits: TRILLION }) && within(ev(b), Real { bits: TRILLION })
            ==> (#[trigger] ev(a.plus(b))).finite()
}

/// Products: those of finite numbers are numbers, those of up to 1e6 are no larger than
/// 1e12, a factor of up to 1 makes nothing larger, and the signs multiply.
pub open spec fn keeps_products(ev: spec_fn(Expr) -> Real) -> bool {
    &&& forall|a: Expr, b: Expr|
        ev(a).finite() && ev(b).finite() ==> !(#[trigger] ev(a.times(b))).nan()
    &&& forall|a: Expr, b: Expr|
        within(ev(a), Real { bits: MILLION }) && within(ev(b), Real { bits: MILLION })
            ==> within(#[trigger] ev(a.times(b)), Real { bits: TRILLION })
    &&& forall|a: Expr, b: Expr|
        ev(a).finite() && within(ev(b), Real { bits: ONE }) ==> within(
            #[trigger] ev(a.times(b)),
            ev(a).unsigned(),
        )
    &&& forall|a: Expr, b: Expr|
        ev(a).finite() && ev(b).finite() && (Real { bits: ZERO }).le(ev(a)) && (Real {
            bits: ZERO,
        }).le(ev(b)) ==> (Real { bits: ZERO }).le(#[trigger] ev(a.times(b)))
}

/// Quotients of finite numbers by one that is not zero are numbers, and so is two to the
/// power of a number.
pub open spec fn keeps_powers(ev: spec_fn(Expr) -> Real) -> bool {
    &&& forall|a: Expr, b: Expr|
        ev(a).finite() && ev(b).finite() && !ev(b).zero() ==> !(#[trigger] ev(a.over(b))).nan()
    &&& forall|a: Expr| !ev(a).nan() ==> !(#[trigger] ev(lit(TWO).powf(a))).nan()
}

/// Sines and cosines of finite angles lie within 1 of zero, the angle of a point within half a
/// turn of zero, and the remainder of a turn between zero and a turn. Rounding can make that
/// remainder a whole turn.
pub open spec fn keeps_angles(ev: spec_fn(Expr) -> Real) -> bool {
    &&& forall|a: Expr| ev(a).finite() ==> within(#[trigger] ev(a.sin()), Real { bits: ONE })
    &&& forall|a: Expr| ev(a).finite() ==> within(#[trigger] ev(a.cos()), Real { bits: ONE })
    &&& forall|a: Expr, b: Expr|
        !ev(a).nan() && !ev(b).nan() ==> within(#[trigger] ev(a.atan2(b)), Real { bits: PI })
    &&& forall|a: Expr|
        ev(a).finite() ==> (Real { bits: ZERO }).le(#[trigger] ev(a.rem_euclid(lit(TAU)))) && ev(
            a.rem_euclid(lit(TAU)),
        ).le(Real { bits: TAU })
}

/// A step by a share of the way, from a number within 2 of zero towards one within 1 of zero,
/// leads no further than 2 from zero.
pub open spec fn keeps_steps(ev: spec_fn(Expr) -> Real) -> bool {
    forall|a: Expr, b: Expr, share: Expr|
        within(ev(a), Real { bits: TWO }) && within(ev(b), Real { bits: ONE }) && (Real {
            bits: ZERO,
        }).le(ev(share)) && ev(share).le(Real { bits: ONE }) ==> within(
            #[trigger] ev(a.plus(share.times(b.minus(a)))),
            Real { bits: TWO },
        )
}

/// A turn taken from an angle above half a turn, or added to one below minus half a turn,
/// brings it closer to zero, and no further than half a turn beyond.
pub open spec fn keeps_turns(ev: spec_fn(Expr) -> Real) -> bool {
    let half = Real { bits: PI };
    let far = Real { bits: MILLION };
    &&& forall|a: Expr|
        half.lt(ev(a)) && ev(a).le(far) ==> half.opposite().le(
            #[trigger] ev(a.minus(lit(TAU))),
        ) && ev(a.minus(lit(TAU))).lt(ev(a))
    &&& forall|a: Expr|
        ev(a).lt(half.opposite()) && far.opposite().le(ev(a)) ==> ev(a).lt(
            #[trigger] ev(a.plus(lit(TAU))),
        ) && ev(a.plus(lit(TAU))).le(half)
}

/// Wrapping an angle is taking away or adding one turn and wrapping the rest, until the
/// angle lies within half a turn of zero.
pub open spec fn unrolls(ev: spec_fn(Expr) -> Real, a: Expr) -> bool {
    let half = Real { bits: PI };
    within(ev(a), Real { bits: MILLION }) ==> ev(a.wrapped()) == if half.lt(ev(a)) {
        ev(a.minus(lit(TAU)).wrapped())
    } else if ev(a).lt(half.opposite()) {
        ev(a.plus(lit(TAU)).wrapped())
    } else {
        ev(a)
    }
}

/// The evaluation keeps to what double arithmetic does.
pub open spec fn faithful(ev: spec_fn(Expr) -> Real) -> bool {
    &&& keeps_choices(ev)
    &&& keeps_sums(ev)
    &&& keeps_products(ev)
    &&& keeps_powers(ev)
    &&& keeps_angles(ev)
    &&& keeps_steps(ev)
    &&& keeps_turns(ev)
    &&& forall|a: Expr| #[trigger] unrolls(ev, a)
}

/// The evaluation is exact in sums, differences, remainders and choices. Of products it keeps
/// the sign, and that a share of a number lies between zero and the number; of quotients by a
/// positive number and of powers of two, that they grow with what is divided or the exponent.
/// Values are whole multiples of a unit that is small enough for all numbers that occur.
pub open spec fn exact(ex: spec_fn(Expr) -> int) -> bool {
    &&& ex(lit(ZERO)) == 0
    &&& ex(lit(TAU)) == 2 * ex(lit(PI))
    &&& forall|x: Real, y: Real|
        x.finite() && y.finite() ==> (#[trigger] ex(Expr::Lit(x)) <= #[trigger] ex(Expr::Lit(y))
            <==> x.le(y))
    &&& forall|x: Real| x.finite() ==> #[trigger] ex(Expr::Lit(x.opposite())) == -ex(Expr::Lit(x))
    &&& forall|a: Expr| #[trigger] ex(a.negated()) == -ex(a)
    &&& forall|a: Expr, b: Expr| #[trigger] ex(a.plus(b)) == ex(a) + ex(b)
    &&& forall|a: Expr, b: Expr| #[trigger] ex(a.minus(b)) == ex(a) - ex(b)
    &&& forall|a: Expr, b: Expr|
        ex(a) >= 0 && ex(b) >= 0 ==> #[trigger] ex(a.times(b)) >= 0
    &&& forall|a: Expr, b: Expr|
        0 <= ex(a) <= ex(lit(ONE)) ==> if ex(b) >= 0 {
            0 <= #[trigger] ex(a.times(b)) <= ex(b)
        } else {
            ex(b) <= ex(a.times(b)) <= 0
        }
    &&& forall|a: Expr, b: Expr, c: Expr|
        ex(a) <= ex(b) && ex(c) > 0 ==> #[trigger] ex(a.over(c)) <= #[trigger] ex(b.over(c))
    &&& forall|a: Expr, b: Expr|
        ex(a) <= ex(b) ==> #[trigger] ex(lit(TWO).powf(a)) <= #[trigger] ex(lit(TWO).powf(b))
    &&& forall|a: Expr| #[trigger] ex(a.rem_euclid(lit(TAU))) == ex(a) % ex(lit(TAU))
    &&& forall|a: Expr, b: Expr, yes: Expr, no: Expr| #[trigger]
        ex(a.if_less(b, yes, no)) == if ex(a) < ex(b) {
            ex(yes)
        } else {
            ex(no)
        }
    &&& forall|a: Expr, low: Expr, high: Expr|
        ex(low) <= ex(high) ==> #[trigger] ex(a.clamped(low, high)) == if ex(a) < ex(low) {
            ex(low)
        } else if ex(high) < ex(a) {
            ex(high)
        } else {
            ex(a)
        }
}

} // verus!
