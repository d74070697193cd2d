//! What holds of the values of derived directions.
use crate::derived::course::{
    steer_error, BearingMagnetic, CourseBearing, CourseOverGroundMagnetic,
};
use crate::derived::geo::full_turn;
use crate::derived::motion::SetDrift;
use crate::evaluation::{exact, faithful};
use crate::expr::{lit, num, Expr};
use crate::incoming::ReadingView;
use crate::number::Real;
use crate::signalk::{Entry, ValueView};
use crate::units::{PI, TAU, ZERO};
use vstd::prelude::*;

verus! {

/// A direction brought to a full turn is not negative and below a turn. This holds up to
/// rounding: in exact arithmetic.
pub proof fn full_turn_is_below_a_turn(ex: spec_fn(Expr) -> int, a: Expr)
    requires
        exact(ex),
    ensures
        0 <= ex(full_turn(a)) < ex(lit(TAU)),
        exists|turns: int| #[trigger] (turns * ex(lit(TAU))) + ex(full_turn(a)) == ex(a),
{
    assert(!(ex(Expr::Lit(Real { bits: TAU })) <= ex(Expr::Lit(Real { bits: ZERO }))));
    let t = ex(lit(TAU));
    vstd::arithmetic::div_mod::lemma_fundamental_div_mod(ex(a), t);
    vstd::arithmetic::mul::lemma_mul_is_commutative(t, ex(a) / t);
    assert(((ex(a) / t) * t) + ex(full_turn(a)) == ex(a));
}

/// In double arithmetic a finite direction brought to a full turn lies between zero and a
/// turn; rounding can make it a whole turn.
pub proof fn full_turn_is_in_range(ev: spec_fn(Expr) -> Real, a: Expr)
    requires
        faithful(ev),
        ev(a).finite(),
    ensures
        (Real { bits: ZERO }).le(ev(full_turn(a))),
        ev(full_turn(a)).le(Real { bits: TAU }),
{
}

/// Every value under a path is a direction from zero up to a turn.
pub open spec fn directions(ex: spec_fn(Expr) -> int, list: Seq<Entry>, path: Seq<char>) -> bool {
    forall|i: int|
        0 <= i < list.len() && (#[trigger] list[i]).path == path ==> (list[i].value matches
            ValueView::Number(e) && 0 <= ex(e) < ex(lit(TAU)))
}

/// The bearing of the next point, and the magnetic bearing and course, are directions from
/// zero up to a turn. This holds up to rounding: in exact arithmetic.
pub proof fn derived_courses_are_directions(ex: spec_fn(Expr) -> int, values: Seq<ReadingView>)
    requires
        exact(ex),
    ensures
        CourseBearing::derived(values) matches Some(list) ==> directions(
            ex,
            list,
            "navigation.course.calcValues.bearingTrackTrue"@,
        ),
        BearingMagnetic::derived(values) matches Some(list) ==> directions(
            ex,
            list,
            "navigation.course.calcValues.bearingTrackMagnetic"@,
        ),
        CourseOverGroundMagnetic::derived(values) matches Some(list) ==> directions(
            ex,
            list,
            "navigation.courseOverGroundMagnetic"@,
        ),
{
    assert forall|a: Expr| 0 <= ex(#[trigger] full_turn(a)) < ex(lit(TAU)) by {
        full_turn_is_below_a_turn(ex, a);
    }
}

/// Where a current sets is a direction from zero up to a turn, true and magnetic. This holds
/// up to rounding: in exact arithmetic.
pub proof fn derived_set_is_a_direction(ex: spec_fn(Expr) -> int, values: Seq<ReadingView>)
    requires
        exact(ex),
    ensures
        SetDrift::derived(values) matches Some(list) ==> directions(
            ex,
            list,
            "environment.current.setTrue"@,
        ) && directions(ex, list, "environment.current.setMagnetic"@),
{
    reveal_strlit("environment.current.setTrue");
    reveal_strlit("environment.current.setMagnetic");
    reveal_strlit("environment.current.drift");
    reveal_strlit("environment.current.driftImpact");
    assert("environment.current.drift"@.len() == 25);
    assert("environment.current.driftImpact"@.len() == 31);
    assert("environment.current.setTrue"@.len() == 27);
    assert("environment.current.setMagnetic"@.len() == 31);
    assert("environment.current.setMagnetic"@[20] == 's');
    assert("environment.current.driftImpact"@[20] == 'd');
    assert(!(ex(Expr::Lit(Real { bits: TAU })) <= ex(Expr::Lit(Real { bits: ZERO }))));
    assert forall|a: Expr| 0 <= ex(#[trigger] full_turn(a)) < ex(lit(TAU)) by {
        full_turn_is_below_a_turn(ex, a);
    }
}

/// The steer error of a course and a bearing from zero to a turn lies within half a turn of
/// zero, and differs from that of the two by whole turns. This holds up to rounding: in exact
/// arithmetic.
pub proof fn steer_error_is_within_half_a_turn(
    ex: spec_fn(Expr) -> int,
    cog: Real,
    bearing: Real,
)
    requires
        exact(ex),
        (Real { bits: ZERO }).le(cog),
        cog.le(Real { bits: TAU }),
        (Real { bits: ZERO }).le(bearing),
        bearing.le(Real { bits: TAU }),
    ensures
        -ex(lit(PI)) <= ex(steer_error(cog, bearing)) <= ex(lit(PI)),
        ({
            let difference = ex(num(cog)) - ex(num(bearing));
            let error = ex(steer_error(cog, bearing));
            ||| error == difference
            ||| error == difference - ex(lit(TAU))
            ||| error == difference + ex(lit(TAU))
        }),
{
    let zero = Real { bits: ZERO };
    let turn = Real { bits: TAU };
    assert(ex(Expr::Lit(zero)) <= ex(Expr::Lit(cog)) && ex(Expr::Lit(cog)) <= ex(Expr::Lit(turn)));
    assert(ex(Expr::Lit(zero)) <= ex(Expr::Lit(bearing)) && ex(Expr::Lit(bearing)) <= ex(
        Expr::Lit(turn),
    ));
    let d = num(cog).minus(num(bearing));
    assert(ex(d.minus(lit(TAU))) == ex(d) - ex(lit(TAU)));
    assert(ex(d.plus(lit(TAU))) == ex(d) + ex(lit(TAU)));
    assert(ex(lit(PI).negated()) == -ex(lit(PI)));
    let low = d.if_less(lit(PI).negated(), d.plus(lit(TAU)), d);
    assert(ex(low) == if ex(d) < ex(lit(PI).negated()) {
        ex(d.plus(lit(TAU)))
    } else {
        ex(d)
    });
}

} // verus!
