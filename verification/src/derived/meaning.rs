//! What the derived values mean, by the numbers found under the input paths.
use crate::algebra::{factors_change_places, quotient_times_divisor, signs_move_out};
use crate::clock::rfc3339_millis_of;
use crate::cpa::EARTH_RADIUS_M;
use crate::derived::course::{
    steer_error, BearingMagnetic, CourseBearing, CourseDistance, CourseOverGroundMagnetic, Eta,
    PreviousPointDistance, SteerError, VmgWaypoint, SLOWEST_VMG,
};
use crate::derived::geo::{half_chord, haversine, haversine_meters, initial_bearing};
use crate::derived::moon::{moon_entries, Moon, MoonReport};
use crate::derived::motion::{
    crab_angle, drift, set_magnetic, set_true, wind_abeam, wind_ahead, CurrentInput, Leeway,
    SetDrift, VmgStw, WindGround, IMPACT_MIN_SPEED, LEEWAY_FACTOR, LEEWAY_MIN_SPEED, STANDSTILL,
};
use crate::derived::propulsion::{engine, PropSlip, PropState};
use crate::derived::tanks::TankVolume;
use crate::derived::weather::{
    celsius, saturation_pressure, vapour_pressure, AirDensity, BUCK_A, BUCK_B, BUCK_C, BUCK_D,
    DRY_AIR, VAPOUR,
};
use crate::derived::{member_number, number_of, position_at, text_of};
use crate::expr::{lit, num, Expr};
use crate::ideal::{direction_is_its_own, ideal, length_of, same_direction};
use crate::incoming::ReadingView;
use crate::json::number_in;
use crate::number::Real;
use crate::paths::{given, group_paths, only, under};
use crate::signalk::{Entry, ValueView};
use crate::units::{KELVIN_OFFSET, ONE, PI, TAU, TWO, ZERO};
use vstd::prelude::*;

verus! {

/// Exactly one number is given under a path, and it is the one that a formula stands for.
pub open spec fn gives(result: Option<Seq<Entry>>, path: Seq<char>, e: Expr) -> bool {
    given(result, path) == only(e)
}

/// A list with one entry shows it under its path.
pub proof fn single_entry_shows(path: Seq<char>, e: Expr)
    ensures
        gives(
            Some(crate::signalk::with(Seq::empty(), path, ValueView::Number(e))),
            path,
            e,
        ),
{
    broadcast use group_paths;

    let list = crate::signalk::with(Seq::<Entry>::empty(), path, ValueView::Number(e));
    assert(under(list, path) =~= only(e));
}

// ---------------------------------------------------------------------------
// Courses and bearings
// ---------------------------------------------------------------------------

/// The magnetic bearing is the true one less the variation, as a direction from zero up to a
/// turn.
pub proof fn magnetic_bearing_is_true_less_variation(
    ev: spec_fn(Expr) -> real,
    values: Seq<ReadingView>,
    bearing: Real,
    variation: Real,
)
    requires
        ideal(ev),
        number_of(values, "navigation.course.calcValues.bearingTrackTrue"@) == Some(bearing),
        number_of(values, "navigation.magneticVariation"@) == Some(variation),
        bearing.finite(),
        variation.finite(),
    ensures
        exists|e: Expr| #[trigger]
            gives(
                BearingMagnetic::derived(values),
                "navigation.course.calcValues.bearingTrackMagnetic"@,
                e,
            ) && 0real <= ev(e) < ev(lit(TAU)) && same_direction(
                ev,
                ev(e),
                ev(num(bearing)) - ev(num(variation)),
            ),
{
    let e = num(bearing).minus(num(variation)).rem_euclid(lit(TAU));
    single_entry_shows("navigation.course.calcValues.bearingTrackMagnetic"@, e);
    assert(0real <= ev(e));
}

/// The magnetic course over ground is the true one less the variation, as a direction from zero
/// up to a turn.
pub proof fn magnetic_course_is_true_less_variation(
    ev: spec_fn(Expr) -> real,
    values: Seq<ReadingView>,
    cog: Real,
    variation: Real,
)
    requires
        ideal(ev),
        number_of(values, "navigation.courseOverGroundTrue"@) == Some(cog),
        number_of(values, "navigation.magneticVariation"@) == Some(variation),
    ensures
        exists|e: Expr| #[trigger]
            gives(
                CourseOverGroundMagnetic::derived(values),
                "navigation.courseOverGroundMagnetic"@,
                e,
            ) && 0real <= ev(e) < ev(lit(TAU)) && same_direction(
                ev,
                ev(e),
                ev(num(cog)) - ev(num(variation)),
            ),
{
    let e = num(cog).minus(num(variation)).rem_euclid(lit(TAU));
    single_entry_shows("navigation.courseOverGroundMagnetic"@, e);
    assert(0real <= ev(e));
}

/// The steering error is the course over ground less the bearing, up to a turn; within half a
/// turn of zero where both are directions from zero to a turn. It is positive where the course
/// lies to starboard of the bearing.
pub proof fn steering_error_is_course_less_bearing(
    ev: spec_fn(Expr) -> real,
    values: Seq<ReadingView>,
    cog: Real,
    bearing: Real,
)
    requires
        ideal(ev),
        number_of(values, "navigation.courseOverGroundTrue"@) == Some(cog),
        number_of(values, "navigation.course.calcValues.bearingTrackTrue"@) == Some(bearing),
        0real <= ev(num(cog)) <= ev(lit(TAU)),
        0real <= ev(num(bearing)) <= ev(lit(TAU)),
    ensures
        exists|e: Expr| #[trigger]
            gives(SteerError::derived(values), "navigation.course.steerError"@, e) && {
                let d = ev(num(cog)) - ev(num(bearing));
                &&& -ev(lit(PI)) <= ev(e) <= ev(lit(PI))
                &&& ev(e) == d || ev(e) == d - ev(lit(TAU)) || ev(e) == d + ev(lit(TAU))
            },
{
    let e = steer_error(cog, bearing);
    single_entry_shows("navigation.course.steerError"@, e);
    let d = num(cog).minus(num(bearing));
    assert(ev(d) == ev(num(cog)) - ev(num(bearing)));
    assert(ev(lit(PI).negated()) == -ev(lit(PI)));
    let low = d.if_less(lit(PI).negated(), d.plus(lit(TAU)), d);
    assert(ev(low) == if ev(d) < ev(lit(PI).negated()) {
        ev(d.plus(lit(TAU)))
    } else {
        ev(d)
    });
    assert(ev(d.minus(lit(TAU))) == ev(d) - ev(lit(TAU)));
    assert(ev(d.plus(lit(TAU))) == ev(d) + ev(lit(TAU)));
    assert(ev(e) == if ev(lit(PI)) < ev(d) {
        ev(d.minus(lit(TAU)))
    } else {
        ev(low)
    });
}

/// The bearing of the next point is the direction of the great circle from the own position to
/// it: eastward it leads as the sine of the bearing, northward as its cosine.
pub proof fn bearing_leads_to_the_next_point(
    ev: spec_fn(Expr) -> real,
    values: Seq<ReadingView>,
    here: (Real, Real),
    there: (Real, Real),
    h: real,
)
    requires
        ideal(ev),
        position_at(values, "navigation.position"@) == Some(here),
        position_at(values, "navigation.course.nextPoint.position"@) == Some(there),
        ({
            let from = num(here.0).to_radians();
            let to = num(there.0).to_radians();
            let step = num(there.1).minus(num(here.1)).to_radians();
            length_of(
                h,
                ev(step.sin()) * ev(to.cos()),
                ev(from.cos()) * ev(to.sin()) - ev(from.sin()) * ev(to.cos()) * ev(step.cos()),
            )
        }),
    ensures
        exists|e: Expr| #[trigger]
            gives(
                CourseBearing::derived(values),
                "navigation.course.calcValues.bearingTrackTrue"@,
                e,
            ) && {
                let from = num(here.0).to_radians();
                let to = num(there.0).to_radians();
                let step = num(there.1).minus(num(here.1)).to_radians();
                &&& 0real <= ev(e) < ev(lit(TAU))
                &&& h * ev(e.sin()) == ev(step.sin()) * ev(to.cos())
                &&& h * ev(e.cos()) == ev(from.cos()) * ev(to.sin()) - ev(from.sin()) * ev(
                    to.cos(),
                ) * ev(step.cos())
            },
{
    let e = initial_bearing(here.0, here.1, there.0, there.1);
    single_entry_shows("navigation.course.calcValues.bearingTrackTrue"@, e);
    let from = num(here.0).to_radians();
    let to = num(there.0).to_radians();
    let step = num(there.1).minus(num(here.1)).to_radians();
    let y = step.sin().times(to.cos());
    let x = from.cos().times(to.sin()).minus(from.sin().times(to.cos()).times(step.cos()));
    assert(e == y.atan2(x).rem_euclid(lit(TAU)));
    assert(ev(y) == ev(step.sin()) * ev(to.cos()));
    assert(ev(from.cos().times(to.sin())) == ev(from.cos()) * ev(to.sin()));
    assert(ev(from.sin().times(to.cos())) == ev(from.sin()) * ev(to.cos()));
    assert(ev(from.sin().times(to.cos()).times(step.cos())) == ev(from.sin()) * ev(to.cos()) * ev(
        step.cos(),
    ));
    assert(length_of(h, ev(y), ev(x)));
    let p = y.atan2(x);
    assert(h * ev(p.sin()) == ev(y) && h * ev(p.cos()) == ev(x));
    assert(same_direction(ev, ev(e), ev(p)));
    assert(ev(e.sin()) == ev(p.sin()) && ev(e.cos()) == ev(p.cos()));
}

/// The haversine of the arc between two positions.
pub open spec fn haversine_value(
    ev: spec_fn(Expr) -> real,
    here: (Real, Real),
    there: (Real, Real),
) -> real {
    let north = num(there.0).minus(num(here.0)).to_radians().over(lit(TWO)).sin();
    let east = num(there.1).minus(num(here.1)).to_radians().over(lit(TWO)).sin();
    ev(north) * ev(north) + ev(num(here.0).to_radians().cos()) * ev(
        num(there.0).to_radians().cos(),
    ) * (ev(east) * ev(east))
}

/// The distance is that of the arc whose half has the root of the haversine as its sine.
pub proof fn arc_has_its_haversine(
    ev: spec_fn(Expr) -> real,
    here: (Real, Real),
    there: (Real, Real),
) -> (half: Expr)
    requires
        ideal(ev),
        0real <= haversine_value(ev, here, there),
    ensures
        ev(haversine_meters(here.0, here.1, there.0, there.1)) == ev(lit(EARTH_RADIUS_M)) * (2real
            * ev(half.asin())),
        ev(half) >= 0real,
        ev(half) * ev(half) == haversine_value(ev, here, there),
{
    let h = haversine(here.0, here.1, there.0, there.1);
    let north = num(there.0).minus(num(here.0)).to_radians().over(lit(TWO)).sin();
    let east = num(there.1).minus(num(here.1)).to_radians().over(lit(TWO)).sin();
    assert(ev(half_chord(here.0, there.0)) == ev(north) * ev(north));
    assert(ev(half_chord(here.1, there.1)) == ev(east) * ev(east));
    let c = num(here.0).to_radians().cos().times(num(there.0).to_radians().cos());
    assert(ev(c) == ev(num(here.0).to_radians().cos()) * ev(num(there.0).to_radians().cos()));
    assert(ev(c.times(half_chord(here.1, there.1))) == ev(c) * ev(half_chord(here.1, there.1)));
    assert(ev(h) == haversine_value(ev, here, there));
    let half = h.sqrt();
    assert(ev(half) >= 0real);
    assert(ev(lit(TWO).times(half.asin())) == 2real * ev(half.asin()));
    half
}

/// The distance to the next point is that of the great circle from the own position to it: the
/// earth's radius times twice the angle whose sine has the haversine as its square.
pub proof fn distance_to_the_next_point(
    ev: spec_fn(Expr) -> real,
    values: Seq<ReadingView>,
    here: (Real, Real),
    there: (Real, Real),
)
    requires
        ideal(ev),
        position_at(values, "navigation.position"@) == Some(here),
        position_at(values, "navigation.courseGreatCircle.nextPoint.position"@) == Some(there),
        0real <= haversine_value(ev, here, there),
    ensures
        exists|e: Expr, half: Expr|
            #![trigger gives(CourseDistance::derived(values),
                "navigation.courseGreatCircle.nextPoint.distance"@, e), half.asin()]
            gives(
                CourseDistance::derived(values),
                "navigation.courseGreatCircle.nextPoint.distance"@,
                e,
            ) && ev(e) == ev(lit(EARTH_RADIUS_M)) * (2real * ev(half.asin())) && ev(half) >= 0real
                && ev(half) * ev(half) == haversine_value(ev, here, there),
{
    let e = haversine_meters(here.0, here.1, there.0, there.1);
    single_entry_shows("navigation.courseGreatCircle.nextPoint.distance"@, e);
    let half = arc_has_its_haversine(ev, here, there);
    assert(gives(
        CourseDistance::derived(values),
        "navigation.courseGreatCircle.nextPoint.distance"@,
        e,
    ));
    assert(ev(half.asin()) == ev(half.asin()));
}

/// The distance to the previous point is that of the great circle from the own position to it.
pub proof fn distance_to_the_previous_point(
    ev: spec_fn(Expr) -> real,
    values: Seq<ReadingView>,
    here: (Real, Real),
    there: (Real, Real),
)
    requires
        ideal(ev),
        position_at(values, "navigation.position"@) == Some(here),
        position_at(values, "navigation.course.previousPoint.position"@) == Some(there),
        0real <= haversine_value(ev, here, there),
    ensures
        exists|e: Expr, half: Expr|
            #![trigger gives(PreviousPointDistance::derived(values),
                "navigation.course.calcValues.previousPoint.distance"@, e), half.asin()]
            gives(
                PreviousPointDistance::derived(values),
                "navigation.course.calcValues.previousPoint.distance"@,
                e,
            ) && ev(e) == ev(lit(EARTH_RADIUS_M)) * (2real * ev(half.asin())) && ev(half) >= 0real
                && ev(half) * ev(half) == haversine_value(ev, here, there),
{
    let e = haversine_meters(here.0, here.1, there.0, there.1);
    single_entry_shows("navigation.course.calcValues.previousPoint.distance"@, e);
    let half = arc_has_its_haversine(ev, here, there);
    assert(gives(
        PreviousPointDistance::derived(values),
        "navigation.course.calcValues.previousPoint.distance"@,
        e,
    ));
    assert(ev(half.asin()) == ev(half.asin()));
}

/// The time to go makes up the distance at the speed made good. It is given where there is
/// progress and the distance is not negative.
pub proof fn time_to_go_makes_up_the_distance(
    ev: spec_fn(Expr) -> real,
    values: Seq<ReadingView>,
    distance: Real,
    vmg: Real,
)
    requires
        ideal(ev),
        number_of(values, "navigation.courseGreatCircle.nextPoint.distance"@) == Some(distance),
        number_of(values, "navigation.courseGreatCircle.nextPoint.velocityMadeGood"@) == Some(vmg),
        distance.finite(),
        vmg.finite(),
        ev(num(vmg)) != 0real,
    ensures
        if vmg.le(Real { bits: SLOWEST_VMG }) || distance.lt(Real { bits: ZERO }) {
            Eta::derived(values) is None
        } else {
            exists|e: Expr| #[trigger]
                gives(Eta::derived(values), "navigation.course.estimatedTimeOfArrival"@, e) && ev(e)
                    * ev(num(vmg)) == ev(num(distance))
        },
{
    let e = num(distance).over(num(vmg));
    single_entry_shows("navigation.course.estimatedTimeOfArrival"@, e);
    quotient_times_divisor(ev(num(distance)), ev(num(vmg)));
    assert(ev(e) * ev(num(vmg)) == ev(num(distance)));
}

/// The speed made good towards the next point is the part of the speed over ground along its
/// bearing: all of it on the bearing, none across it.
pub proof fn speed_made_good_is_along_the_bearing(
    ev: spec_fn(Expr) -> real,
    values: Seq<ReadingView>,
    sog: Real,
    cog: Real,
    bearing: Real,
    angle: Expr,
)
    requires
        ideal(ev),
        number_of(values, "navigation.speedOverGround"@) == Some(sog),
        number_of(values, "navigation.courseOverGroundTrue"@) == Some(cog),
        number_of(values, "navigation.courseGreatCircle.bearingTrackTrue"@) == Some(bearing),
        sog.finite(),
        cog.finite(),
        bearing.finite(),
        ev(angle) == ev(num(cog)) - ev(num(bearing)),
    ensures
        exists|e: Expr| #[trigger]
            gives(
                VmgWaypoint::derived(values),
                "navigation.courseGreatCircle.nextPoint.velocityMadeGood"@,
                e,
            ) && ev(e) == ev(num(sog)) * ev(angle.cos()),
{
    let d = num(cog).minus(num(bearing));
    let e = num(sog).times(d.cos());
    single_entry_shows("navigation.courseGreatCircle.nextPoint.velocityMadeGood"@, e);
    direction_is_its_own(ev, ev(d));
    assert(ev(d.cos()) == ev(angle.cos()));
    assert(ev(e) == ev(num(sog)) * ev(angle.cos()));
}

// ---------------------------------------------------------------------------
// Motion
// ---------------------------------------------------------------------------

/// Leeway is ten times the heel by the square of the speed, from half a metre per second on.
pub proof fn leeway_follows_heel(
    ev: spec_fn(Expr) -> real,
    values: Seq<ReadingView>,
    roll: Real,
    stw: Real,
)
    requires
        ideal(ev),
        ev(lit(LEEWAY_FACTOR)) == 10real,
        member_number(values, "navigation.attitude"@, "roll"@) == Some(roll),
        number_of(values, "navigation.speedThroughWater"@) == Some(stw),
        ev(num(stw)) * ev(num(stw)) != 0real,
    ensures
        if stw.lt(Real { bits: LEEWAY_MIN_SPEED }) {
            Leeway::derived(values) is None
        } else {
            exists|e: Expr| #[trigger]
                gives(Leeway::derived(values), "navigation.leewayAngleHeel"@, e) && ev(e) * (ev(
                    num(stw),
                ) * ev(num(stw))) == 10real * ev(num(roll))
        },
{
    let e = lit(LEEWAY_FACTOR).times(num(roll)).over(num(stw).times(num(stw)));
    single_entry_shows("navigation.leewayAngleHeel"@, e);
    quotient_times_divisor(10real * ev(num(roll)), ev(num(stw)) * ev(num(stw)));
    assert(ev(num(stw).times(num(stw))) == ev(num(stw)) * ev(num(stw)));
    assert(ev(e) * (ev(num(stw)) * ev(num(stw))) == 10real * ev(num(roll)));
}

/// The speed made good to windward is the part of the speed through the water along the true
/// wind.
pub proof fn windward_speed_is_along_the_wind(
    ev: spec_fn(Expr) -> real,
    values: Seq<ReadingView>,
    angle: Real,
    stw: Real,
)
    requires
        ideal(ev),
        number_of(values, "environment.wind.angleTrueWater"@) == Some(angle),
        number_of(values, "navigation.speedThroughWater"@) == Some(stw),
    ensures
        exists|e: Expr| #[trigger]
            gives(VmgStw::derived(values), "performance.velocityMadeGoodWater"@, e) && ev(e) == ev(
                num(stw),
            ) * ev(num(angle).cos()),
{
    let e = num(stw).times(num(angle).cos());
    single_entry_shows("performance.velocityMadeGoodWater"@, e);
    assert(ev(e) == ev(num(stw)) * ev(num(angle).cos()));
}

/// The paths of the wind over ground are different ones.
proof fn ground_wind_paths_differ()
    ensures
        "environment.wind.angleTrueGround"@ != "environment.wind.speedOverGround"@,
{
    reveal_strlit("environment.wind.angleTrueGround");
    reveal_strlit("environment.wind.speedOverGround");
    assert("environment.wind.angleTrueGround"@[17] == 'a');
    assert("environment.wind.speedOverGround"@[17] == 's');
}

/// The wind over ground is the apparent wind less the own speed ahead: its part along the
/// heading is that of the apparent wind less the speed over ground, its part across the heading
/// is that of the apparent wind.
pub proof fn ground_wind_is_apparent_less_own_speed(
    ev: spec_fn(Expr) -> real,
    values: Seq<ReadingView>,
    aws: Real,
    awa: Real,
    sog: Real,
)
    requires
        ideal(ev),
        number_of(values, "environment.wind.speedApparent"@) == Some(aws),
        number_of(values, "environment.wind.angleApparent"@) == Some(awa),
        number_of(values, "navigation.speedOverGround"@) == Some(sog),
    ensures
        exists|speed: Expr, angle: Expr|
            #![trigger gives(WindGround::derived(values), "environment.wind.speedOverGround"@,
                speed), gives(WindGround::derived(values), "environment.wind.angleTrueGround"@,
                angle)]
            gives(WindGround::derived(values), "environment.wind.speedOverGround"@, speed)
                && gives(WindGround::derived(values), "environment.wind.angleTrueGround"@, angle)
                && ev(speed) >= 0real && ev(speed) * ev(angle.cos()) == ev(num(aws)) * ev(
                num(awa).cos(),
            ) - ev(num(sog)) && ev(speed) * ev(angle.sin()) == ev(num(aws)) * ev(num(awa).sin()),
{
    broadcast use group_paths;

    ground_wind_paths_differ();
    let x = wind_ahead(aws, awa, sog);
    let y = wind_abeam(aws, awa);
    let square = x.times(x).plus(y.times(y));
    let speed = square.sqrt();
    let angle = y.atan2(x);
    let list = WindGround::derived(values)->0;
    assert(under(list, "environment.wind.speedOverGround"@) =~= only(speed));
    assert(under(list, "environment.wind.angleTrueGround"@) =~= only(angle));
    assert(gives(WindGround::derived(values), "environment.wind.speedOverGround"@, speed));
    assert(gives(WindGround::derived(values), "environment.wind.angleTrueGround"@, angle));
    crate::algebra::square_is_not_negative(1real, ev(x));
    crate::algebra::square_is_not_negative(1real, ev(y));
    assert(ev(square) == ev(x) * ev(x) + ev(y) * ev(y));
    assert(ev(square) >= 0real);
    assert(length_of(ev(speed), ev(y), ev(x)));
    assert(ev(speed) * ev(angle.sin()) == ev(y) && ev(speed) * ev(angle.cos()) == ev(x));
    assert(ev(num(aws).times(num(awa).cos())) == ev(num(aws)) * ev(num(awa).cos()));
}

/// The paths of a current are different ones.
proof fn current_paths_differ()
    ensures
        "environment.current.drift"@ != "environment.current.setTrue"@,
        "environment.current.drift"@ != "environment.current.setMagnetic"@,
        "environment.current.drift"@ != "environment.current.driftImpact"@,
        "environment.current.setTrue"@ != "environment.current.setMagnetic"@,
        "environment.current.setTrue"@ != "environment.current.driftImpact"@,
        "environment.current.setMagnetic"@ != "environment.current.driftImpact"@,
{
    reveal_strlit("environment.current.setTrue");
    reveal_strlit("environment.current.setMagnetic");
    reveal_strlit("environment.current.drift");
    reveal_strlit("environment.current.driftImpact");
    assert("environment.current.drift"@.len() == 25);
    assert("environment.current.driftImpact"@.len() == 31);
    assert("environment.current.setTrue"@.len() == 27);
    assert("environment.current.setMagnetic"@.len() == 31);
    assert("environment.current.setMagnetic"@[20] == 's');
    assert("environment.current.driftImpact"@[20] == 'd');
}

/// What is given of a current, by the numbers under the input paths. The angle between course
/// and heading is that of the course over ground less the magnetic heading.
proof fn current_by_paths(
    values: Seq<ReadingView>,
    heading: Real,
    cog: Real,
    stw: Real,
    sog: Real,
    variation: Real,
) -> (m: CurrentInput)
    requires
        number_of(values, "navigation.headingMagnetic"@) == Some(heading),
        number_of(values, "navigation.courseOverGroundTrue"@) == Some(cog),
        number_of(values, "navigation.speedThroughWater"@) == Some(stw),
        number_of(values, "navigation.speedOverGround"@) == Some(sog),
        number_of(values, "navigation.magneticVariation"@) == Some(variation),
        heading.finite(),
        cog.finite(),
        stw.finite(),
        sog.finite(),
        variation.finite(),
        !(sog.unsigned().lt(Real { bits: STANDSTILL }) && stw.unsigned().lt(
            Real { bits: STANDSTILL },
        )),
    ensures
        crab_angle(m) == num(cog).minus(num(heading)),
        m.stw == stw,
        m.sog == sog,
        m.variation == variation,
        gives(SetDrift::derived(values), "environment.current.drift"@, drift(m)),
        gives(SetDrift::derived(values), "environment.current.setTrue"@, set_true(m)),
        gives(SetDrift::derived(values), "environment.current.setMagnetic"@, set_magnetic(m)),
        given(SetDrift::derived(values), "environment.current.driftImpact"@) == if (Real {
            bits: IMPACT_MIN_SPEED,
        }).lt(stw) {
            only(drift(m).over(num(stw)))
        } else {
            Seq::empty()
        },
{
    broadcast use group_paths;

    current_paths_differ();
    let m = CurrentInput { heading_magnetic: heading, cog_true: cog, stw, sog, variation };
    let list = SetDrift::derived(values)->0;
    assert(under(list, "environment.current.drift"@) =~= only(drift(m)));
    assert(under(list, "environment.current.setTrue"@) =~= only(set_true(m)));
    assert(under(list, "environment.current.setMagnetic"@) =~= only(set_magnetic(m)));
    if (Real { bits: IMPACT_MIN_SPEED }).lt(stw) {
        assert(under(list, "environment.current.driftImpact"@) =~= only(drift(m).over(num(stw))));
    }
    m
}

/// The current, by its parts: ahead it makes up the difference of the speed over ground along
/// the heading and the speed through the water; across it has the speed over ground across the
/// heading, to the other side. The angle between course and heading is `d`, the course over
/// ground less the magnetic heading.
pub proof fn current_makes_up_the_difference(
    ev: spec_fn(Expr) -> real,
    values: Seq<ReadingView>,
    heading: Real,
    cog: Real,
    stw: Real,
    sog: Real,
    variation: Real,
    d: Expr,
)
    requires
        ideal(ev),
        number_of(values, "navigation.headingMagnetic"@) == Some(heading),
        number_of(values, "navigation.courseOverGroundTrue"@) == Some(cog),
        number_of(values, "navigation.speedThroughWater"@) == Some(stw),
        number_of(values, "navigation.speedOverGround"@) == Some(sog),
        number_of(values, "navigation.magneticVariation"@) == Some(variation),
        heading.finite(),
        cog.finite(),
        stw.finite(),
        sog.finite(),
        variation.finite(),
        !(sog.unsigned().lt(Real { bits: STANDSTILL }) && stw.unsigned().lt(
            Real { bits: STANDSTILL },
        )),
        ev(d) == ev(num(cog)) - ev(num(heading)),
    ensures
        exists|speed: Expr, set: Expr, set_t: Expr|
            #![trigger gives(SetDrift::derived(values), "environment.current.drift"@, speed),
                gives(SetDrift::derived(values), "environment.current.setMagnetic"@, set),
                gives(SetDrift::derived(values), "environment.current.setTrue"@, set_t)]
            {
                &&& gives(SetDrift::derived(values), "environment.current.drift"@, speed)
                &&& gives(SetDrift::derived(values), "environment.current.setMagnetic"@, set)
                &&& gives(SetDrift::derived(values), "environment.current.setTrue"@, set_t)
                &&& ev(speed) >= 0real
                &&& 0real <= ev(set) < ev(lit(TAU))
                &&& ev(speed) * ev(set.cos()) == ev(num(sog)) * ev(d.cos()) - ev(num(stw))
                &&& ev(speed) * ev(set.sin()) == -(ev(num(sog)) * ev(d.sin()))
                &&& 0real <= ev(set_t) < ev(lit(TAU))
                &&& same_direction(ev, ev(set_t), ev(set) + ev(num(variation)))
            },
{
    let m = current_by_paths(values, heading, cog, stw, sog, variation);
    current_by_parts(ev, m, d);
    let set = set_magnetic(m);
    let set_t = set_true(m);
    assert(set_t == set.plus(num(variation)).rem_euclid(lit(TAU)));
    assert(ev(set.plus(num(variation))) == ev(set) + ev(num(variation)));
    assert(0real <= ev(set_t));
}

/// Drift and magnetic set, by their parts along and across the heading.
proof fn current_by_parts(ev: spec_fn(Expr) -> real, m: CurrentInput, d: Expr)
    requires
        ideal(ev),
        ev(d) == ev(crab_angle(m)),
    ensures
        ev(drift(m)) >= 0real,
        0real <= ev(set_magnetic(m)) < ev(lit(TAU)),
        ev(drift(m)) * ev(set_magnetic(m).cos()) == ev(num(m.sog)) * ev(d.cos()) - ev(num(m.stw)),
        ev(drift(m)) * ev(set_magnetic(m).sin()) == -(ev(num(m.sog)) * ev(d.sin())),
{
    let sog = m.sog;
    let stw = m.stw;
    let crab = crab_angle(m);
    direction_is_its_own(ev, ev(d));
    assert(ev(crab) == ev(d));
    assert(ev(crab.sin()) == ev(d.sin()) && ev(crab.cos()) == ev(d.cos()));
    let y = num(sog).times(crab.sin());
    let x = num(stw).minus(num(sog).times(crab.cos()));
    let s = ev(num(sog));
    let w = ev(num(stw));
    assert(ev(y) == s * ev(d.sin()));
    assert(ev(x) == w - s * ev(d.cos()));
    // The square of the drift.
    let sn = ev(d.sin());
    let cs = ev(d.cos());
    let square = num(sog).times(num(sog)).plus(num(stw).times(num(stw))).minus(
        lit(TWO).times(num(stw)).times(num(sog)).times(crab.cos()),
    );
    assert(ev(lit(TWO).times(num(stw))) == 2real * w);
    assert(ev(lit(TWO).times(num(stw)).times(num(sog))) == 2real * w * s);
    assert(ev(square) == s * s + w * w - 2real * w * s * cs);
    law_of_cosines(s, w, sn, cs);
    assert(ev(y) * ev(y) + ev(x) * ev(x) == ev(square));
    crate::algebra::square_is_not_negative(1real, ev(y));
    crate::algebra::square_is_not_negative(1real, ev(x));
    assert(ev(square.max(lit(ZERO))) == ev(square));
    let speed = drift(m);
    assert(speed == square.max(lit(ZERO)).sqrt());
    assert(length_of(ev(speed), ev(y), ev(x)));
    let p = y.atan2(x);
    assert(ev(speed) * ev(p.sin()) == ev(y) && ev(speed) * ev(p.cos()) == ev(x));
    let back = p.plus(lit(PI));
    assert(ev(back) == ev(p) + ev(lit(PI)));
    assert(ev(back.sin()) == -ev(p.sin()) && ev(back.cos()) == -ev(p.cos()));
    let set = set_magnetic(m);
    assert(set == back.rem_euclid(lit(TAU)));
    assert(same_direction(ev, ev(set), ev(back)));
    assert(ev(set.sin()) == ev(back.sin()) && ev(set.cos()) == ev(back.cos()));
    signs_move_out(ev(speed), ev(p.sin()));
    signs_move_out(ev(speed), ev(p.cos()));
    assert(0real <= ev(set));
}

/// The law of cosines, by the parts of the third side.
proof fn law_of_cosines(s: real, w: real, sn: real, cs: real)
    requires
        sn * sn + cs * cs == 1real,
    ensures
        (s * sn) * (s * sn) + (w - s * cs) * (w - s * cs) == s * s + w * w - 2real * w * s * cs,
{
    let b = s * cs;
    crate::algebra::square_of_sum(w, -b);
    signs_move_out(w, b);
    signs_move_out(b, b);
    assert(w - b == w + (-b));
    factors_change_places(s, s, sn);
    factors_change_places(s, s, cs);
    crate::algebra::product_with_sum(sn * sn, cs * cs, s * s);
    signs_move_out(sn * sn, s * s);
    signs_move_out(cs * cs, s * s);
    assert((s * sn) * (s * sn) == (s * s) * (sn * sn));
    assert((s * cs) * (s * cs) == (s * s) * (cs * cs));
    factors_change_places(w, s, cs);
    let q = w * s;
    assert(2real * w * s == 2real * q) by (nonlinear_arith)
        requires
            q == w * s,
    ;
    assert((2real * q) * cs == 2real * (q * cs)) by (nonlinear_arith);
    assert(1real * (s * s) == s * s);
}

/// A vessel that makes good a course as far to one side of its heading as another to the other
/// side, with the same speeds, has a current that sets as far to the other side, and as far
/// ahead.
pub proof fn mirrored_courses_have_mirrored_sets(
    ev: spec_fn(Expr) -> real,
    a: CurrentInput,
    b: CurrentInput,
)
    requires
        ideal(ev),
        a.sog == b.sog,
        a.stw == b.stw,
        ev(num(a.cog_true)) - ev(num(a.heading_magnetic)) == -(ev(num(b.cog_true)) - ev(
            num(b.heading_magnetic),
        )),
    ensures
        ev(drift(a)) * ev(set_magnetic(a).sin()) == -(ev(drift(b)) * ev(set_magnetic(b).sin())),
        ev(drift(a)) * ev(set_magnetic(a).cos()) == ev(drift(b)) * ev(set_magnetic(b).cos()),
{
    let x = crab_angle(a);
    let y = crab_angle(b);
    current_by_parts(ev, a, x);
    current_by_parts(ev, b, y);
    assert(ev(x) == -ev(y));
    assert(ev(x.sin()) == -ev(y.sin()));
    assert(ev(x.cos()) == ev(y.cos()));
    signs_move_out(ev(num(b.sog)), ev(y.sin()));
}

/// The impact of a current is its drift by the speed through the water.
pub proof fn impact_is_drift_by_speed(
    ev: spec_fn(Expr) -> real,
    values: Seq<ReadingView>,
    heading: Real,
    cog: Real,
    stw: Real,
    sog: Real,
    variation: Real,
)
    requires
        ideal(ev),
        number_of(values, "navigation.headingMagnetic"@) == Some(heading),
        number_of(values, "navigation.courseOverGroundTrue"@) == Some(cog),
        number_of(values, "navigation.speedThroughWater"@) == Some(stw),
        number_of(values, "navigation.speedOverGround"@) == Some(sog),
        number_of(values, "navigation.magneticVariation"@) == Some(variation),
        heading.finite(),
        cog.finite(),
        stw.finite(),
        sog.finite(),
        variation.finite(),
        ev(num(stw)) != 0real,
        !(sog.unsigned().lt(Real { bits: STANDSTILL }) && stw.unsigned().lt(
            Real { bits: STANDSTILL },
        )),
    ensures
        if (Real { bits: IMPACT_MIN_SPEED }).lt(stw) {
            exists|speed: Expr, impact: Expr|
                #![trigger gives(SetDrift::derived(values), "environment.current.drift"@, speed),
                    gives(SetDrift::derived(values), "environment.current.driftImpact"@, impact)]
                gives(SetDrift::derived(values), "environment.current.drift"@, speed) && gives(
                    SetDrift::derived(values),
                    "environment.current.driftImpact"@,
                    impact,
                ) && ev(impact) * ev(num(stw)) == ev(speed)
        } else {
            given(SetDrift::derived(values), "environment.current.driftImpact"@) == Seq::<
                ValueView,
            >::empty()
        },
{
    let m = current_by_paths(values, heading, cog, stw, sog, variation);
    if (Real { bits: IMPACT_MIN_SPEED }).lt(stw) {
        let impact = drift(m).over(num(stw));
        quotient_times_divisor(ev(drift(m)), ev(num(stw)));
        assert(gives(SetDrift::derived(values), "environment.current.driftImpact"@, impact));
        assert(ev(impact) * ev(num(stw)) == ev(drift(m)));
    }
}

// ---------------------------------------------------------------------------
// Engines, tanks and weather
// ---------------------------------------------------------------------------

/// Every engine whose revolutions are known as a number is told of: it is started where they
/// are above zero, and stopped otherwise.
pub proof fn running_engines_are_started(values: Seq<ReadingView>, i: int, rpm: Real)
    requires
        0 <= i < values.len(),
        engine(values[i].path) is Some,
        number_in(values[i].value) == Some(rpm),
    ensures
        PropState::derived(values) matches Some(list) && list.contains(
            Entry {
                path: engine(values[i].path)->0 + ".state.value"@,
                value: ValueView::Text(
                    if (Real { bits: ZERO }).lt(rpm) {
                        "started"@
                    } else {
                        "stopped"@
                    },
                ),
            },
        ),
{
    state_is_listed(values, i, rpm);
}

proof fn state_is_listed(values: Seq<ReadingView>, i: int, rpm: Real)
    requires
        0 <= i < values.len(),
        engine(values[i].path) is Some,
        number_in(values[i].value) == Some(rpm),
    ensures
        PropState::states(values).contains(
            Entry {
                path: engine(values[i].path)->0 + ".state.value"@,
                value: ValueView::Text(
                    if (Real { bits: ZERO }).lt(rpm) {
                        "started"@
                    } else {
                        "stopped"@
                    },
                ),
            },
        ),
    decreases values.len(),
{
    let all = PropState::states(values);
    let e = Entry {
        path: engine(values[i].path)->0 + ".state.value"@,
        value: ValueView::Text(
            if (Real { bits: ZERO }).lt(rpm) {
                "started"@
            } else {
                "stopped"@
            },
        ),
    };
    if i == values.len() - 1 {
        assert(all.last() == e);
    } else {
        let rest = values.drop_last();
        state_is_listed(rest, i, rpm);
        let before = PropState::states(rest);
        let k = choose|k: int| 0 <= k < before.len() && before[k] == e;
        assert(all[k] == e);
    }
}

/// The path of an engine's revolutions begins with `propulsion.` and ends in `.revolutions`;
/// what stands before that end is the path of the engine.
pub proof fn engine_of_revolutions(name: Seq<char>)
    ensures
        engine("propulsion."@ + name + ".revolutions"@) == Some("propulsion."@ + name),
{
    let prefix = "propulsion."@ + name;
    let path = prefix + ".revolutions"@;
    let n = ".revolutions"@.len();
    assert(path.subrange(path.len() - n, path.len() as int) =~= ".revolutions"@);
    assert(path.take(path.len() - n) =~= prefix);
    assert(prefix.subrange(0, "propulsion."@.len() as int) =~= "propulsion."@);
}

/// The slip of a propeller is the speed through the water by its revolutions, where it turns.
pub proof fn slip_is_speed_by_revolutions(
    values: Seq<ReadingView>,
    i: int,
    stw: Real,
    revolutions: Real,
)
    requires
        0 <= i < values.len(),
        engine(values[i].path) is Some,
        number_in(values[i].value) == Some(revolutions),
        number_of(values, "navigation.speedThroughWater"@) == Some(stw),
        !revolutions.le(Real { bits: ZERO }),
    ensures
        PropSlip::derived(values) matches Some(list) && list.contains(
            Entry {
                path: engine(values[i].path)->0 + ".drive.propeller.slip"@,
                value: ValueView::Number(Expr::Lit(stw).over(Expr::Lit(revolutions))),
            },
        ),
{
    slip_is_listed(values, i, stw, revolutions);
}

proof fn slip_is_listed(values: Seq<ReadingView>, i: int, stw: Real, revolutions: Real)
    requires
        0 <= i < values.len(),
        engine(values[i].path) is Some,
        number_in(values[i].value) == Some(revolutions),
        !revolutions.le(Real { bits: ZERO }),
    ensures
        PropSlip::slips(values, stw).contains(
            Entry {
                path: engine(values[i].path)->0 + ".drive.propeller.slip"@,
                value: ValueView::Number(Expr::Lit(stw).over(Expr::Lit(revolutions))),
            },
        ),
    decreases values.len(),
{
    let all = PropSlip::slips(values, stw);
    let e = Entry {
        path: engine(values[i].path)->0 + ".drive.propeller.slip"@,
        value: ValueView::Number(Expr::Lit(stw).over(Expr::Lit(revolutions))),
    };
    if i == values.len() - 1 {
        assert(all.last() == e);
    } else {
        let rest = values.drop_last();
        slip_is_listed(rest, i, stw, revolutions);
        let before = PropSlip::slips(rest, stw);
        let k = choose|k: int| 0 <= k < before.len() && before[k] == e;
        assert(all[k] == e);
    }
}

/// The volume in a tank is its capacity times its level, for a capacity above zero and a level
/// from 0 to 1.
pub proof fn volume_is_capacity_times_level(
    values: Seq<ReadingView>,
    i: int,
    tank: Seq<char>,
    capacity: Real,
    level: Real,
)
    requires
        0 <= i < values.len(),
        values[i].path == "tanks."@ + tank + ".capacity"@,
        number_of(values, "tanks."@ + tank + ".capacity"@) == Some(capacity),
        number_of(values, "tanks."@ + tank + ".currentLevel"@) == Some(level),
        (Real { bits: ZERO }).lt(capacity),
        (Real { bits: ZERO }).le(level),
        level.le(Real { bits: ONE }),
    ensures
        TankVolume::derived(values) matches Some(list) && list.contains(
            Entry {
                path: "tanks."@ + tank + ".currentVolume"@,
                value: ValueView::Number(Expr::Lit(level).times(Expr::Lit(capacity))),
            },
        ),
{
    let prefix = "tanks."@ + tank;
    let path = prefix + ".capacity"@;
    let n = ".capacity"@.len();
    assert(path.subrange(path.len() - n, path.len() as int) =~= ".capacity"@);
    assert(path.take(path.len() - n) =~= prefix);
    assert(prefix.subrange(0, "tanks."@.len() as int) =~= "tanks."@);
    let e = Entry {
        path: prefix + ".currentVolume"@,
        value: ValueView::Number(Expr::Lit(level).times(Expr::Lit(capacity))),
    };
    assert(TankVolume::volume(values, path) == Some(e));
    volume_is_listed(values, values.len(), i, e);
}

proof fn volume_is_listed(values: Seq<ReadingView>, n: nat, i: int, e: Entry)
    requires
        0 <= i < n <= values.len(),
        TankVolume::volume(values, values[i].path) == Some(e),
    ensures
        TankVolume::volumes(values, n).contains(e),
    decreases n,
{
    let all = TankVolume::volumes(values, n);
    if i == n - 1 {
        assert(all.last() == e);
    } else {
        volume_is_listed(values, (n - 1) as nat, i, e);
        let before = TankVolume::volumes(values, (n - 1) as nat);
        let k = choose|k: int| 0 <= k < before.len() && before[k] == e;
        assert(all[k] == e);
    }
}

/// Dry air has the density of an ideal gas: pressure is the gas constant times density times
/// temperature. Air counts as dry without a humidity above 0 and up to 1.
pub proof fn dry_air_is_an_ideal_gas(
    ev: spec_fn(Expr) -> real,
    values: Seq<ReadingView>,
    t: Real,
    p: Real,
)
    requires
        ideal(ev),
        number_of(values, "environment.outside.temperature"@) == Some(t),
        number_of(values, "environment.outside.pressure"@) == Some(p),
        number_of(values, "environment.outside.humidity"@) matches Some(h) ==> !((Real {
            bits: ZERO,
        }).lt(h) && h.le(Real { bits: ONE })),
        ev(lit(DRY_AIR)) * ev(num(t)) != 0real,
        !t.le(Real { bits: ZERO }),
        !p.le(Real { bits: ZERO }),
    ensures
        exists|e: Expr| #[trigger]
            gives(AirDensity::derived(values), "environment.outside.airDensity"@, e) && ev(e) * (ev(
                lit(DRY_AIR),
            ) * ev(num(t))) == ev(num(p)),
{
    let e = num(p).over(lit(DRY_AIR).times(num(t)));
    single_entry_shows("environment.outside.airDensity"@, e);
    assert(ev(lit(DRY_AIR).times(num(t))) == ev(lit(DRY_AIR)) * ev(num(t)));
    quotient_times_divisor(ev(num(p)), ev(lit(DRY_AIR)) * ev(num(t)));
    assert(ev(e) * (ev(lit(DRY_AIR)) * ev(num(t))) == ev(num(p)));
}

/// Moist air is dry air and vapour, each an ideal gas: the vapour has the share of the
/// saturation pressure that the humidity gives, the dry air the rest of the pressure.
pub proof fn moist_air_is_dry_air_and_vapour(
    ev: spec_fn(Expr) -> real,
    values: Seq<ReadingView>,
    t: Real,
    p: Real,
    h: Real,
)
    requires
        ideal(ev),
        number_of(values, "environment.outside.temperature"@) == Some(t),
        number_of(values, "environment.outside.pressure"@) == Some(p),
        number_of(values, "environment.outside.humidity"@) == Some(h),
        (Real { bits: ZERO }).lt(h),
        h.le(Real { bits: ONE }),
        ev(lit(DRY_AIR)) * ev(num(t)) != 0real,
        ev(lit(VAPOUR)) * ev(num(t)) != 0real,
        !t.le(Real { bits: ZERO }),
        !p.le(Real { bits: ZERO }),
    ensures
        exists|e: Expr| #[trigger]
            gives(AirDensity::derived(values), "environment.outside.airDensity"@, e) && {
                let vapour = ev(num(h)) * ev(saturation_pressure(t));
                ev(e) == (ev(num(p)) - vapour) / (ev(lit(DRY_AIR)) * ev(num(t))) + vapour / (ev(
                    lit(VAPOUR),
                ) * ev(num(t)))
            },
{
    let v = num(h).times(saturation_pressure(t));
    let e = num(p).minus(v).over(lit(DRY_AIR).times(num(t))).plus(
        v.over(lit(VAPOUR).times(num(t))),
    );
    single_entry_shows("environment.outside.airDensity"@, e);
    assert(ev(lit(DRY_AIR).times(num(t))) == ev(lit(DRY_AIR)) * ev(num(t)));
    assert(ev(lit(VAPOUR).times(num(t))) == ev(lit(VAPOUR)) * ev(num(t)));
    assert(ev(v) == ev(num(h)) * ev(saturation_pressure(t)));
    assert(gives(AirDensity::derived(values), "environment.outside.airDensity"@, e));
}

/// The moon is told as it was reported: its phase, its illumination, its age, and the name of the
/// phase.
pub proof fn moon_is_told_as_reported(report: MoonReport)
    ensures
        ({
            let list = moon_entries(report);
            &&& under(list, "environment.moon.phase"@) == only(num(report.phase))
            &&& under(list, "environment.moon.illumination"@) == only(num(report.illumination))
            &&& under(list, "environment.moon.age"@) == only(num(report.age))
            &&& under(list, "environment.moon.phaseName"@) == seq![
                ValueView::Text(report.phase_name@),
            ]
        }),
{
    broadcast use group_paths;

    reveal_strlit("environment.moon.phase");
    reveal_strlit("environment.moon.illumination");
    reveal_strlit("environment.moon.age");
    reveal_strlit("environment.moon.phaseName");
    assert("environment.moon.phase"@.len() == 22);
    assert("environment.moon.illumination"@.len() == 29);
    assert("environment.moon.age"@.len() == 20);
    assert("environment.moon.phaseName"@.len() == 26);
}

/// The moon is that of the moment in the data, as long as it is not before the epoch.
pub proof fn moon_is_that_of_the_moment(values: Seq<ReadingView>, text: Seq<char>)
    requires
        text_of(values, "navigation.datetime"@) == Some(text),
    ensures
        match rfc3339_millis_of(text) {
            Some(ms) => if ms < 0 {
                Moon::moment(values) is None
            } else {
                Moon::moment(values) matches Some(at) && at == ms
            },
            None => Moon::moment(values) is None,
        },
{
}

/// Every volume that is told is that of a tank with a capacity above zero and a level from 0 to 1:
/// no other tank is told of.
pub proof fn told_volumes_are_of_usable_tanks(values: Seq<ReadingView>, n: nat, k: int)
    requires
        n <= values.len(),
        0 <= k < TankVolume::volumes(values, n).len(),
    ensures
        ({
            let e = TankVolume::volumes(values, n)[k];
            exists|i: int, tank: Seq<char>|
                #![trigger values[i], "tanks."@ + tank]
                0 <= i < n && values[i].path == "tanks."@ + tank + ".capacity"@ && e.path
                    == "tanks."@ + tank + ".currentVolume"@ && (match (
                    number_of(values, values[i].path),
                    number_of(values, "tanks."@ + tank + ".currentLevel"@),
                ) {
                    (Some(capacity), Some(level)) => !capacity.le(Real { bits: ZERO }) && (Real {
                        bits: ZERO,
                    }).le(level) && level.le(Real { bits: ONE }),
                    _ => false,
                })
        }),
    decreases n,
{
    let all = TankVolume::volumes(values, n);
    let rest = TankVolume::volumes(values, (n - 1) as nat);
    if k < rest.len() {
        assert(all[k] == rest[k]);
        told_volumes_are_of_usable_tanks(values, (n - 1) as nat, k);
    } else {
        let path = values[n - 1].path;
        let prefix = TankVolume::tank(path)->0;
        let tank = prefix.skip("tanks."@.len() as int);
        assert(prefix =~= "tanks."@ + tank) by {
            assert(prefix.subrange(0, "tanks."@.len() as int) == "tanks."@);
        }
        let m = path.len() - ".capacity"@.len();
        assert(path.subrange(m, path.len() as int) == ".capacity"@);
        assert(path =~= prefix + ".capacity"@);
        assert(values[n - 1].path == "tanks."@ + tank + ".capacity"@);
    }
}

/// The saturation pressure after Buck: a factor times the exponential of a quotient. The quotient
/// times 257.14 degrees more than the temperature is the temperature times what is left of 18.678
/// after its 234.5th part. The vapour has the share of it that the humidity says.
pub proof fn vapour_is_a_share_of_saturation(
    ev: spec_fn(Expr) -> real,
    t: Real,
    humidity: Real,
) -> (exponent: Expr)
    requires
        ideal(ev),
        ev(lit(BUCK_C)) != 0real,
        ev(lit(BUCK_D)) + (ev(num(t)) - ev(lit(KELVIN_OFFSET))) != 0real,
    ensures
        ({
            let c = ev(num(t)) - ev(lit(KELVIN_OFFSET));
            &&& ev(exponent) * (ev(lit(BUCK_D)) + c) == (ev(lit(BUCK_B)) - c / ev(lit(BUCK_C))) * c
            &&& ev(saturation_pressure(t)) == ev(lit(BUCK_A)) * ev(exponent.exp())
            &&& ev(vapour_pressure(t, humidity)) == ev(num(humidity)) * ev(saturation_pressure(t))
        }),
{
    let c = celsius(t);
    let left = lit(BUCK_B).minus(c.over(lit(BUCK_C))).times(c);
    let more = lit(BUCK_D).plus(c);
    let exponent = left.over(more);
    assert(ev(c) == ev(num(t)) - ev(lit(KELVIN_OFFSET)));
    assert(ev(left) == (ev(lit(BUCK_B)) - ev(c) / ev(lit(BUCK_C))) * ev(c));
    quotient_times_divisor(ev(left), ev(more));
    exponent
}

} // verus!
