//! What formulas mean: their values in real arithmetic.
//!
//! An ideal evaluation gives every formula the number that it stands for, without rounding;
//! half a turn is half a turn exactly. Laws that say what a formula is for are stated for
//! every such evaluation.
use crate::expr::{lit, Expr};
use crate::number::Real;
use crate::units::{ONE, PI, TAU, TWO, ZERO};
use vstd::prelude::*;

verus! {

/// Numbers keep their order; signs, sums, products and quotients are exact.
pub open spec fn ideal_arithmetic(ev: spec_fn(Expr) -> real) -> bool {
    &&& ev(lit(ZERO)) == 0real
    &&& ev(lit(ONE)) == 1real
    &&& ev(lit(TWO)) == 2real
    &&& forall|x: Real, y: Real|
        x.finite() && y.finite() ==> (#[trigger] ev(Expr::Lit(x)) <= #[trigger] ev(Expr::Lit(y))
            <==> x.le(y))
    &&& forall|x: Real| x.finite() ==> #[trigger] ev(Expr::Lit(x.opposite())) == -ev(Expr::Lit(x))
    &&& forall|n: u64| #[trigger] ev(Expr::Uint(n)) == n as real
    &&& forall|n: i64| #[trigger] ev(Expr::Int(n)) == n as real
    &&& forall|a: Expr| #[trigger] ev(a.negated()) == -ev(a)
    &&& forall|a: Expr, b: Expr| #[trigger] ev(a.plus(b)) == ev(a) + ev(b)
    &&& forall|a: Expr, b: Expr| #[trigger] ev(a.minus(b)) == ev(a) - ev(b)
    &&& forall|a: Expr, b: Expr| #[trigger] ev(a.times(b)) == ev(a) * ev(b)
    &&& forall|a: Expr, b: Expr| ev(b) != 0real ==> #[trigger] ev(a.over(b)) == ev(a) / ev(b)
}

/// Choices are exact, and roots are those of the number.
pub open spec fn ideal_choices(ev: spec_fn(Expr) -> real) -> bool {
    &&& forall|a: Expr| #[trigger]
        ev(a.absolute()) == if ev(a) < 0real {
            -ev(a)
        } else {
            ev(a)
        }
    &&& forall|a: Expr, b: Expr| #[trigger]
        ev(a.max(b)) == if ev(a) < ev(b) {
            ev(b)
        } else {
            ev(a)
        }
    &&& forall|a: Expr, b: Expr| #[trigger]
        ev(a.min(b)) == if ev(b) < ev(a) {
            ev(b)
        } else {
            ev(a)
        }
    &&& forall|a: Expr, low: Expr, high: Expr|
        ev(low) <= ev(high) ==> #[trigger] ev(a.clamped(low, high)) == if ev(a) < ev(low) {
            ev(low)
        } else if ev(high) < ev(a) {
            ev(high)
        } else {
            ev(a)
        }
    &&& forall|a: Expr, b: Expr, yes: Expr, no: Expr| #[trigger]
        ev(a.if_less(b, yes, no)) == if ev(a) < ev(b) {
            ev(yes)
        } else {
            ev(no)
        }
    &&& forall|a: Expr|
        ev(a) >= 0real ==> (#[trigger] ev(a.sqrt())) >= 0real && ev(a.sqrt()) * ev(a.sqrt())
            == ev(a)
}

/// The length of a leg across and a leg along.
pub open spec fn length_of(h: real, y: real, x: real) -> bool {
    h >= 0real && h * h == y * y + x * x
}

/// A number of turns, as an angle.
pub open spec fn turns(ev: spec_fn(Expr) -> real, k: int) -> real {
    (k as real) * ev(lit(TAU))
}

/// Two angles differ by whole turns.
pub open spec fn same_direction(ev: spec_fn(Expr) -> real, a: real, b: real) -> bool {
    exists|k: int| a == b + #[trigger] turns(ev, k)
}

/// Sines and cosines are those of the angle, whatever formula it has.
pub open spec fn ideal_circle(ev: spec_fn(Expr) -> real) -> bool {
    &&& ev(lit(PI)) > 0real
    &&& ev(lit(TAU)) == 2real * ev(lit(PI))
    &&& forall|a: Expr| #[trigger]
        ev(a.sin()) * ev(a.sin()) + ev(a.cos()) * ev(a.cos()) == 1real
    &&& forall|a: Expr, b: Expr|
        same_direction(ev, ev(a), ev(b)) ==> #[trigger] ev(a.sin()) == #[trigger] ev(b.sin())
    &&& forall|a: Expr, b: Expr|
        same_direction(ev, ev(a), ev(b)) ==> #[trigger] ev(a.cos()) == #[trigger] ev(b.cos())
    &&& forall|a: Expr, b: Expr|
        ev(a) == -ev(b) ==> #[trigger] ev(a.sin()) == -#[trigger] ev(b.sin())
    &&& forall|a: Expr, b: Expr|
        ev(a) == -ev(b) ==> #[trigger] ev(a.cos()) == #[trigger] ev(b.cos())
    &&& forall|a: Expr, b: Expr|
        ev(a) == ev(b) + ev(lit(PI)) ==> #[trigger] ev(a.sin()) == -#[trigger] ev(b.sin())
    &&& forall|a: Expr, b: Expr|
        ev(a) == ev(b) + ev(lit(PI)) ==> #[trigger] ev(a.cos()) == -#[trigger] ev(b.cos())
}

/// The angle of a point is that under which it lies, an angle brought to a turn or to half a
/// turn differs by whole turns, and the angle of a slope has it.
pub open spec fn ideal_angles(ev: spec_fn(Expr) -> real) -> bool {
    &&& forall|y: Expr, x: Expr, h: real| #[trigger]
        length_of(h, ev(y), ev(x)) ==> h * ev((#[trigger] y.atan2(x)).sin()) == ev(y) && h * ev(
            y.atan2(x).cos(),
        ) == ev(x)
    &&& forall|y: Expr, x: Expr|
        -ev(lit(PI)) <= (#[trigger] ev(y.atan2(x))) && ev(y.atan2(x)) <= ev(lit(PI))
    &&& forall|a: Expr|
        0real <= (#[trigger] ev(a.rem_euclid(lit(TAU)))) && ev(a.rem_euclid(lit(TAU))) < ev(
            lit(TAU),
        ) && same_direction(ev, ev(a.rem_euclid(lit(TAU))), ev(a))
    &&& forall|a: Expr|
        -ev(lit(PI)) <= (#[trigger] ev(a.wrapped())) && ev(a.wrapped()) <= ev(lit(PI))
            && same_direction(ev, ev(a.wrapped()), ev(a))
    &&& forall|a: Expr|
        -ev(lit(PI)) <= ev(a) && ev(a) <= ev(lit(PI)) ==> #[trigger] ev(a.wrapped()) == ev(a)
    &&& forall|a: Expr|
        (#[trigger] ev(a.atan().cos())) > 0real && ev(a.atan().sin()) == ev(a) * ev(
            a.atan().cos(),
        )
    &&& forall|a: Expr|
        -ev(lit(PI)) < 2real * (#[trigger] ev(a.atan())) && 2real * ev(a.atan()) < ev(lit(PI))
    &&& forall|a: Expr| (ev(a) > 0real) == ((#[trigger] ev(a.atan())) > 0real)
    &&& forall|a: Expr| #[trigger] ev(a.to_radians()) * 180real == ev(a) * ev(lit(PI))
    &&& forall|a: Expr| #[trigger] ev(a.to_degrees()) * ev(lit(PI)) == ev(a) * 180real
    &&& forall|a: Expr| (ev(a) < 0real) == ((#[trigger] ev(a.atan())) < 0real)
}

/// Every formula has the number that it stands for.
pub open spec fn ideal(ev: spec_fn(Expr) -> real) -> bool {
    &&& ideal_arithmetic(ev)
    &&& ideal_choices(ev)
    &&& ideal_circle(ev)
    &&& ideal_angles(ev)
}

/// An angle differs from itself by no turns.
pub proof fn direction_is_its_own(ev: spec_fn(Expr) -> real, a: real)
    ensures
        same_direction(ev, a, a),
{
    let t = ev(lit(TAU));
    assert((0int as real) * t == 0real) by (nonlinear_arith);
    assert(a == a + turns(ev, 0));
}

} // verus!
