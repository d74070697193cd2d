//! What the autopilot steers by, from received values to the rudder.
use crate::algebra::{product_with_sum, quotient_times_divisor, signs_move_out};
use crate::autopilot::filter::{CircularFilter, RateDetector};
use crate::autopilot::modes::{angle_error, error_rate, ErrorFormulas};
use crate::autopilot::pd::{
    quality, rudder_mismatch, speed_ratio, Gains, HeadingPlausibility, PidConfig, PidController,
    RecoveryState, RATIO_MAX, RATIO_MIN,
};
use crate::autopilot::provider::{mirrored, Manoeuvre, TackDirection, MIN_WIND_ANGLE, SAME_TACK};
use crate::autopilot::state::{since, AutopilotConfig, AutopilotMode, AutopilotState, StateView};
use crate::autopilot::tick::{
    control_interval, dodged_target, gust_rate, gust_term, heel_term, mode_errors, mode_filter,
    output_every, recovery_error, rudder_command, rudder_delta_view, seconds, snapshot_view,
    state_delta_view, tick_duration, weighted_gains, ControlLoop, ControlValues, Snapshot,
    SteerValues, MIN_DT, MIN_RATE_HZ, NANOS_PER_SEC,
};
use crate::expr::{lit, num, Expr};
use crate::ideal::{ideal, length_of, same_direction, turns};
use crate::incoming::{IncomingUpdateView, ReadingView};
use crate::json::number_in;
use crate::number::Real;
use crate::paths::{group_paths, one_update_tells_all, only, told, under};
use crate::signalk::{SourceKindView, ValueView};
use crate::units::{ONE, PI, TAU, ZERO};
use vstd::prelude::*;

verus! {

// ---------------------------------------------------------------------------
// Sensors
// ---------------------------------------------------------------------------

/// The last of some received values under a path that is a number.
pub open spec fn last_number(values: Seq<ReadingView>, path: Seq<char>) -> Option<Real>
    decreases values.len(),
{
    if values.len() == 0 {
        None
    } else if values.last().path == path && number_in(values.last().value) is Some {
        number_in(values.last().value)
    } else {
        last_number(values.drop_last(), path)
    }
}

/// A sensor has the number received last under its path, heard when it was received; where no
/// number was received it stays as it was. Rudder angles are not a sensor but feedback, unless
/// the autopilot itself sent them.
pub proof fn sensors_have_what_was_received_last(
    state: StateView,
    own: bool,
    values: Seq<ReadingView>,
    now: u64,
    path: Seq<char>,
)
    ensures
        ({
            let after = state.with_readings(own, values, now);
            &&& path != "steering.rudderAngle"@ ==> (match last_number(values, path) {
                Some(v) => after.value_of(path) == Some(v) && after.heard(path) == Some(now),
                None => after.value_of(path) == state.value_of(path) && after.heard(path)
                    == state.heard(path),
            })
            &&& !own ==> (match last_number(values, "steering.rudderAngle"@) {
                Some(v) => after.actual_rudder_rad == Some(v) && after.actual_rudder_last_seen
                    == Some(now),
                None => after.actual_rudder_rad == state.actual_rudder_rad,
            })
        }),
    decreases values.len(),
{
    if values.len() > 0 {
        sensors_have_what_was_received_last(state, own, values.drop_last(), now, path);
    }
}

/// What a tick looks at is what stands under these paths. The mode's sensor is the magnetic
/// heading, the apparent or the true wind angle, or the bearing to the waypoint. The heading is
/// the magnetic one, or the true one where there is none; the speed is the one through the
/// water, or the one over ground where there is none.
pub proof fn tick_looks_at_its_paths(state: StateView, timeout_secs: u64, now: u64)
    ensures
        ({
            let snap = snapshot_view(state, timeout_secs, now);
            let magnetic = state.value_of("navigation.headingMagnetic"@);
            let through_water = state.value_of("navigation.speedThroughWater"@);
            &&& snap.enabled == state.enabled
            &&& snap.mode == state.mode
            &&& snap.target == state.target_rad
            &&& snap.dodge == state.dodge_offset_rad
            &&& snap.prev_error == state.last_error_rad
            &&& snap.last_tick == state.last_tick_at
            &&& snap.last_rudder == state.last_rudder_rad
            &&& snap.actual_rudder == state.actual_rudder_rad
            &&& snap.primary_sensor == (match state.mode {
                AutopilotMode::Compass => magnetic,
                AutopilotMode::Wind => state.value_of("environment.wind.angleApparent"@),
                AutopilotMode::WindTrue => state.value_of("environment.wind.angleTrue"@),
                AutopilotMode::Route => state.value_of(
                    "navigation.course.calcValues.bearingTrackTrue"@,
                ),
            })
            &&& magnetic is Some ==> snap.heading == magnetic
            &&& magnetic is None ==> snap.heading == state.value_of("navigation.headingTrue"@)
            &&& snap.xte == state.value_of("navigation.crossTrackError"@)
            &&& snap.yaw_rate == state.value_of("navigation.rateOfTurn"@)
            &&& through_water is Some ==> snap.speed == through_water
            &&& through_water is None ==> snap.speed
                == state.value_of("navigation.speedOverGround"@)
            &&& snap.heel == state.value_of("navigation.attitude.roll"@)
            &&& snap.wind_speed == state.value_of("environment.wind.speedApparent"@)
            &&& snap.heading_age == (match state.heard("navigation.headingMagnetic"@) {
                Some(t) => Some(since(t, now)),
                None => match state.heard("navigation.headingTrue"@) {
                    Some(t) => Some(since(t, now)),
                    None => None,
                },
            })
        }),
{
}

/// A tick finds the sensor timed out exactly where the mode's sensor was never heard, or has
/// been silent for a whole second more than the timeout.
pub proof fn silence_is_a_timeout(state: StateView, timeout_secs: u64, now: u64)
    ensures
        snapshot_view(state, timeout_secs, now).timed_out <==> (match state.heard(
            match state.mode {
                AutopilotMode::Compass => "navigation.headingMagnetic"@,
                AutopilotMode::Wind => "environment.wind.angleApparent"@,
                AutopilotMode::WindTrue => "environment.wind.angleTrue"@,
                AutopilotMode::Route => "navigation.course.calcValues.bearingTrackTrue"@,
            },
        ) {
            Some(then) => now - then >= (timeout_secs + 1) * 1_000_000_000,
            None => true,
        }),
{
}

// ---------------------------------------------------------------------------
// Steering errors
// ---------------------------------------------------------------------------

/// An error is the way from where the vessel points to where it is to point: within half a turn
/// of zero, and up to whole turns the difference of the two.
pub open spec fn leads(ev: spec_fn(Expr) -> real, error: Expr, from: real, to: real) -> bool {
    &&& -ev(lit(PI)) <= ev(error) <= ev(lit(PI))
    &&& same_direction(ev, ev(error), to - from)
    &&& -ev(lit(PI)) <= to - from <= ev(lit(PI)) ==> ev(error) == to - from
}

/// The error of one angle against another leads from the second to the first.
proof fn error_leads_to_its_target(ev: spec_fn(Expr) -> real, target: Expr, current: Expr)
    requires
        ideal(ev),
    ensures
        leads(ev, angle_error(target, current), ev(current), ev(target)),
{
    let d = target.minus(current);
    assert(ev(d) == ev(target) - ev(current));
    assert(angle_error(target, current) == d.wrapped());
    assert(-ev(lit(PI)) <= ev(d.wrapped()));
}

/// The rate of change of an error: the measured rate of turn, with the opposite sign, where it
/// is plausible; otherwise the way from the last error to this one, by the time between them.
pub open spec fn changes(
    ev: spec_fn(Expr) -> real,
    errors: ErrorFormulas,
    snap: Snapshot,
    v: SteerValues,
    cfg: AutopilotConfig,
) -> bool {
    match snap.yaw_rate {
        Some(rate) => if rate.finite() && !cfg.max_yaw_rate_rad_per_sec.lt(rate.unsigned()) {
            ev(errors.d_error) == -ev(num(rate))
        } else {
            differs(ev, errors, snap, v)
        },
        None => differs(ev, errors, snap, v),
    }
}

/// The rate of change of an error over the time is the way from the last error to this one.
pub open spec fn differs(
    ev: spec_fn(Expr) -> real,
    errors: ErrorFormulas,
    snap: Snapshot,
    v: SteerValues,
) -> bool {
    ev(num(v.dt)) != 0real ==> exists|way: Expr| #[trigger]
        leads(ev, way, ev(num(snap.prev_error)), ev(errors.error)) && ev(errors.d_error) * ev(
            num(v.dt),
        ) == ev(way)
}

/// The rate of an error is its rate of change.
proof fn rate_is_rate_of_change(
    ev: spec_fn(Expr) -> real,
    errors: ErrorFormulas,
    snap: Snapshot,
    v: SteerValues,
    cfg: AutopilotConfig,
)
    requires
        ideal(ev),
        errors.d_error == error_rate(
            errors.error,
            snap.prev_error,
            v.dt,
            crate::autopilot::pd::plausible_yaw_rate(snap.yaw_rate, cfg.max_yaw_rate_rad_per_sec),
        ),
    ensures
        changes(ev, errors, snap, v, cfg),
{
    let way = angle_error(errors.error, num(snap.prev_error));
    error_leads_to_its_target(ev, errors.error, num(snap.prev_error));
    if ev(num(v.dt)) != 0real {
        quotient_times_divisor(ev(way), ev(num(v.dt)));
        assert(ev(way.over(num(v.dt))) == ev(way) / ev(num(v.dt)));
    }
}

/// In compass mode the error leads from the checked heading to the target. There is one exactly
/// where there is a heading.
pub proof fn compass_mode_steers_to_the_target(
    ev: spec_fn(Expr) -> real,
    filter: CircularFilter,
    snap: Snapshot,
    v: SteerValues,
    cfg: AutopilotConfig,
)
    requires
        ideal(ev),
        snap.mode is Compass,
    ensures
        match v.heading {
            Some(heading) => mode_errors(filter, snap, v, cfg) matches Some(errors) && leads(
                ev,
                errors.error,
                ev(num(heading)),
                ev(num(v.effective_target)),
            ) && changes(ev, errors, snap, v, cfg),
            None => mode_errors(filter, snap, v, cfg) is None,
        },
{
    if let Some(heading) = v.heading {
        let errors = mode_errors(filter, snap, v, cfg)->0;
        error_leads_to_its_target(ev, num(v.effective_target), num(heading));
        rate_is_rate_of_change(ev, errors, snap, v, cfg);
    }
}

/// In wind modes the error leads from the filtered wind angle to the target. There is one
/// exactly where there is a wind angle.
pub proof fn wind_modes_steer_to_the_target(
    ev: spec_fn(Expr) -> real,
    filter: CircularFilter,
    snap: Snapshot,
    v: SteerValues,
    cfg: AutopilotConfig,
)
    requires
        ideal(ev),
        snap.mode is Wind || snap.mode is WindTrue,
    ensures
        match snap.primary_sensor {
            Some(raw) => mode_errors(filter, snap, v, cfg) matches Some(errors) && leads(
                ev,
                errors.error,
                ev(filter.next(raw)),
                ev(num(v.effective_target)),
            ) && changes(ev, errors, snap, v, cfg),
            None => mode_errors(filter, snap, v, cfg) is None,
        },
{
    if let Some(raw) = snap.primary_sensor {
        let errors = mode_errors(filter, snap, v, cfg)->0;
        error_leads_to_its_target(ev, num(v.effective_target), filter.next(raw));
        rate_is_rate_of_change(ev, errors, snap, v, cfg);
    }
}

/// In route mode the error leads from the checked heading to the bearing of the waypoint,
/// turned to starboard for a positive cross-track error and to port for a negative one, by less
/// than a quarter turn. Without cross-track error it leads to the bearing itself: it is
/// positive where the bearing lies to starboard of the heading, and zero where the vessel
/// points along the bearing. There is an error exactly where there are a heading and a bearing.
pub proof fn route_mode_steers_to_the_waypoint(
    ev: spec_fn(Expr) -> real,
    filter: CircularFilter,
    snap: Snapshot,
    v: SteerValues,
    cfg: AutopilotConfig,
)
    requires
        ideal(ev),
        snap.mode is Route,
    ensures
        match (v.heading, snap.primary_sensor) {
            (Some(heading), Some(bearing)) => mode_errors(filter, snap, v, cfg) matches Some(errors)
                && changes(ev, errors, snap, v, cfg) && exists|turned: Expr|
                {
                    let xte = match snap.xte {
                        Some(x) => ev(num(x)),
                        None => 0real,
                    };
                    let correction = ev(turned) - ev(num(bearing));
                    &&& #[trigger] leads_up_to_turns(
                        ev,
                        errors.error,
                        ev(num(heading)),
                        ev(turned),
                    )
                    &&& -ev(lit(PI)) < 2real * correction < ev(lit(PI))
                    &&& xte > 0real <==> correction > 0real
                    &&& xte < 0real <==> correction < 0real
                },
            _ => mode_errors(filter, snap, v, cfg) is None,
        },
        match (v.heading, snap.primary_sensor) {
            (Some(heading), Some(bearing)) => (snap.xte is None || ev(num(snap.xte->0)) == 0real)
                ==> {
                let errors = mode_errors(filter, snap, v, cfg)->0;
                let way = ev(num(bearing)) - ev(num(heading));
                &&& leads_up_to_turns(ev, errors.error, ev(num(heading)), ev(num(bearing)))
                &&& 0real < way < ev(lit(PI)) ==> ev(errors.error) == way
                &&& -ev(lit(PI)) < way < 0real ==> ev(errors.error) == way
                &&& way == 0real ==> ev(errors.error) == 0real
            },
            _ => true,
        },
{
    if let (Some(heading), Some(bearing)) = (v.heading, snap.primary_sensor) {
        let x = match snap.xte {
            Some(x) => x,
            None => Real { bits: ZERO },
        };
        let slope = num(x).over(num(cfg.route_lookahead_m).max(lit(ONE)));
        let turned = num(bearing).plus(slope.atan());
        let errors = mode_errors(filter, snap, v, cfg)->0;
        let desired = turned.wrapped();
        assert(errors.error == angle_error(desired, num(heading)));
        error_leads_to_its_target(ev, desired, num(heading));
        rate_is_rate_of_change(ev, errors, snap, v, cfg);
        // The correction has the sign of the cross-track error.
        let ahead = ev(num(cfg.route_lookahead_m).max(lit(ONE)));
        assert(ahead >= 1real);
        let s = ev(slope);
        quotient_times_divisor(ev(num(x)), ahead);
        assert(s * ahead == ev(num(x)));
        sign_of_product(s, ahead);
        assert(ev(turned) == ev(num(bearing)) + ev(slope.atan()));
        let d = desired.minus(num(heading));
        assert(ev(d) == ev(desired) - ev(num(heading)));
        directions_follow(
            ev,
            ev(errors.error),
            ev(desired) - ev(num(heading)),
            ev(turned) - ev(num(heading)),
            ev(desired),
            ev(turned),
            ev(num(heading)),
        );
        assert(leads_up_to_turns(ev, errors.error, ev(num(heading)), ev(turned)));
        if snap.xte is None || ev(num(snap.xte->0)) == 0real {
            assert(ev(num(x)) == 0real);
            assert(s == 0real);
            assert(ev(slope.atan()) == 0real);
            assert(ev(turned) == ev(num(bearing)));
            let way = ev(num(bearing)) - ev(num(heading));
            if -ev(lit(PI)) < way && way < ev(lit(PI)) {
                only_one_within_half_a_turn(ev, ev(errors.error), way);
            }
        }
    }
}

/// An error leads from one direction to another, up to whole turns.
pub open spec fn leads_up_to_turns(
    ev: spec_fn(Expr) -> real,
    error: Expr,
    from: real,
    to: real,
) -> bool {
    -ev(lit(PI)) <= ev(error) <= ev(lit(PI)) && same_direction(ev, ev(error), to - from)
}

/// A factor that is positive leaves the sign.
proof fn sign_of_product(a: real, b: real)
    requires
        b > 0real,
    ensures
        (a * b > 0real) == (a > 0real),
        (a * b < 0real) == (a < 0real),
        (a * b == 0real) == (a == 0real),
{
    assert(a > 0real ==> a * b > 0real) by (nonlinear_arith)
        requires
            b > 0real,
    ;
    assert(a < 0real ==> a * b < 0real) by (nonlinear_arith)
        requires
            b > 0real,
    ;
    assert(0real * b == 0real) by (nonlinear_arith);
}

/// Whole turns add up.
proof fn directions_follow(
    ev: spec_fn(Expr) -> real,
    a: real,
    b: real,
    c: real,
    desired: real,
    turned: real,
    from: real,
)
    requires
        same_direction(ev, a, b),
        same_direction(ev, desired, turned),
        b == desired - from,
        c == turned - from,
    ensures
        same_direction(ev, a, c),
{
    let k = choose|k: int| a == b + #[trigger] turns(ev, k);
    let n = choose|n: int| desired == turned + #[trigger] turns(ev, n);
    let t = ev(lit(TAU));
    product_with_sum(k as real, n as real, t);
    assert((k + n) as real == k as real + n as real);
    assert(turns(ev, k + n) == turns(ev, k) + turns(ev, n));
    assert(a == c + turns(ev, k + n));
}

/// Of the angles that differ by whole turns, no two lie strictly within half a turn of zero.
proof fn only_one_within_half_a_turn(ev: spec_fn(Expr) -> real, a: real, b: real)
    requires
        ideal(ev),
        same_direction(ev, a, b),
        -ev(lit(PI)) <= a <= ev(lit(PI)),
        -ev(lit(PI)) < b < ev(lit(PI)),
    ensures
        a == b,
{
    let k = choose|k: int| a == b + #[trigger] turns(ev, k);
    let t = ev(lit(TAU));
    let x = k as real;
    if k >= 1 {
        assert(x >= 1real);
        assert(x * t >= t) by (nonlinear_arith)
            requires
                x >= 1real,
                t > 0real,
        ;
    } else if k <= -1 {
        assert(x <= -1real);
        assert(x * t <= -t) by (nonlinear_arith)
            requires
                x <= -1real,
                t > 0real,
        ;
    } else {
        assert(0real * t == 0real) by (nonlinear_arith);
    }
}

/// A filter without samples passes the direction of the first one on: sine and cosine are those
/// of the sample.
pub proof fn first_wind_sample_is_passed_on(
    ev: spec_fn(Expr) -> real,
    filter: CircularFilter,
    raw: Real,
)
    requires
        ideal(ev),
        filter.sin_filter.value is None,
        filter.cos_filter.value is None,
    ensures
        ev(filter.next(raw).sin()) == ev(num(raw).sin()),
        ev(filter.next(raw).cos()) == ev(num(raw).cos()),
{
    let y = num(raw).sin();
    let x = num(raw).cos();
    assert(filter.next(raw) == y.atan2(x));
    assert(length_of(1real, ev(y), ev(x)));
    assert(1real * ev(y.atan2(x).sin()) == ev(y) && 1real * ev(y.atan2(x).cos()) == ev(x));
}

/// With samples, sine and cosine move towards those of the new sample by the filter's share of
/// the way, and the filtered angle points where they do.
pub proof fn wind_samples_move_the_filter(
    ev: spec_fn(Expr) -> real,
    filter: CircularFilter,
    raw: Real,
    sin: Real,
    cos: Real,
    h: real,
)
    requires
        ideal(ev),
        filter.sin_filter.value == Some(sin),
        filter.cos_filter.value == Some(cos),
        length_of(h, ev(filter.next_sin(raw)), ev(filter.next_cos(raw))),
    ensures
        ev(filter.next_sin(raw)) - ev(num(sin)) == ev(num(filter.sin_filter.alpha)) * (ev(
            num(raw).sin(),
        ) - ev(num(sin))),
        ev(filter.next_cos(raw)) - ev(num(cos)) == ev(num(filter.cos_filter.alpha)) * (ev(
            num(raw).cos(),
        ) - ev(num(cos))),
        h * ev(filter.next(raw).sin()) == ev(filter.next_sin(raw)),
        h * ev(filter.next(raw).cos()) == ev(filter.next_cos(raw)),
{
    let ys = num(raw).sin().minus(num(sin));
    let xs = num(raw).cos().minus(num(cos));
    assert(ev(num(filter.sin_filter.alpha).times(ys)) == ev(num(filter.sin_filter.alpha)) * ev(ys));
    assert(ev(num(filter.cos_filter.alpha).times(xs)) == ev(num(filter.cos_filter.alpha)) * ev(xs));
    let y = filter.next_sin(raw);
    let x = filter.next_cos(raw);
    assert(filter.next(raw) == y.atan2(x));
    assert(h * ev(y.atan2(x).sin()) == ev(y));
}

/// The sine and cosine that the loop keeps in wind modes are those of the filter after the
/// mode's sensor; in other modes it keeps none.
pub proof fn wind_modes_keep_the_filter(filter: CircularFilter, snap: Snapshot)
    ensures
        (snap.mode is Wind || snap.mode is WindTrue) && snap.primary_sensor is Some ==> mode_filter(
            filter,
            snap,
        ) == Some(
            (
                filter.next_sin(snap.primary_sensor->0),
                filter.next_cos(snap.primary_sensor->0),
            ),
        ),
        snap.mode is Compass || snap.mode is Route || snap.primary_sensor is None ==> mode_filter(
            filter,
            snap,
        ) is None,
{
}

/// The error that recovery is decided by leads to the target: from the checked heading in
/// compass mode, else from the mode's sensor.
pub proof fn recovery_looks_at_the_modes_error(
    ev: spec_fn(Expr) -> real,
    snap: Snapshot,
    heading: Option<Real>,
    effective_target: Real,
)
    requires
        ideal(ev),
    ensures
        ({
            let from = if snap.mode is Compass {
                heading
            } else {
                snap.primary_sensor
            };
            match from {
                Some(x) => recovery_error(snap, heading, effective_target) matches Some(e) && leads(
                    ev,
                    e,
                    ev(num(x)),
                    ev(num(effective_target)),
                ),
                None => recovery_error(snap, heading, effective_target) is None,
            }
        }),
{
    let from = if snap.mode is Compass {
        heading
    } else {
        snap.primary_sensor
    };
    if let Some(x) = from {
        error_leads_to_its_target(ev, num(effective_target), num(x));
    }
}

/// The target of a tick is the target with the temporary offset added.
pub proof fn dodging_adds_to_the_target(
    ev: spec_fn(Expr) -> real,
    target: Real,
    dodge: Option<Real>,
)
    requires
        ideal(ev),
    ensures
        ev(dodged_target(target, dodge)) == ev(num(target)) + (match dodge {
            Some(d) => ev(num(d)),
            None => 0real,
        }),
{
}

/// The time of a tick is the time since the last one, in seconds, but no less than the least;
/// for the first tick it is that of the control rate.
pub proof fn tick_lasts_since_the_last_one(
    ev: spec_fn(Expr) -> real,
    last_tick: Option<u64>,
    now: u64,
    rate: Real,
)
    requires
        ideal(ev),
        ev(lit(NANOS_PER_SEC)) == 1_000_000_000real,
        ev(num(rate)) != 0real,
    ensures
        match last_tick {
            Some(then) => {
                let nanos = if now >= then {
                    (now - then) as real
                } else {
                    0real
                };
                let dt = ev(tick_duration(last_tick, now, rate));
                &&& dt >= ev(lit(MIN_DT))
                &&& dt * 1_000_000_000real == nanos || dt == ev(lit(MIN_DT))
                &&& nanos > ev(lit(MIN_DT)) * 1_000_000_000real ==> dt * 1_000_000_000real == nanos
            },
            None => ev(tick_duration(last_tick, now, rate)) * ev(num(rate)) == 1real,
        },
{
    match last_tick {
        Some(then) => {
            let n = since(then, now);
            let whole = (n / 1_000_000_000) as u64;
            let rest = (n % 1_000_000_000) as u64;
            assert(n == whole * 1_000_000_000 + rest);
            let e = seconds(n);
            assert(ev(Expr::Uint(rest).over(lit(NANOS_PER_SEC))) == (rest as real)
                / 1_000_000_000real);
            quotient_times_divisor(rest as real, 1_000_000_000real);
            assert(ev(e) * 1_000_000_000real == n as real);
            assert(ev(e.max(lit(MIN_DT))) == if ev(e) < ev(lit(MIN_DT)) {
                ev(lit(MIN_DT))
            } else {
                ev(e)
            });
        },
        None => {
            quotient_times_divisor(1real, ev(num(rate)));
        },
    }
}

/// A jump of the heading is the way from the last plausible heading to the new one, to whichever
/// side.
pub proof fn jump_is_the_way_from_the_last_heading(
    ev: spec_fn(Expr) -> real,
    check: HeadingPlausibility,
    heading: Real,
)
    requires
        ideal(ev),
    ensures
        match check.prev_value {
            Some(prev) => check.jump_view(heading) matches Some(e) && ev(e) >= 0real
                && exists|way: Expr| #[trigger]
                leads(ev, way, ev(num(prev)), ev(num(heading))) && (ev(e) == ev(way) || ev(e)
                    == -ev(way)),
            None => check.jump_view(heading) is None,
        },
{
    if let Some(prev) = check.prev_value {
        let way = angle_error(num(heading), num(prev));
        error_leads_to_its_target(ev, num(heading), num(prev));
        assert(check.jump_view(heading) == Some(way.absolute()));
        assert(leads(ev, way, ev(num(prev)), ev(num(heading))));
    }
}

// ---------------------------------------------------------------------------
// Gains
// ---------------------------------------------------------------------------

/// Without a speed the gains are the configured ones, each in its place; the D gain is weighted
/// by the age of the heading where that is configured.
pub proof fn gains_are_the_configured_ones(
    ev: spec_fn(Expr) -> real,
    cfg: AutopilotConfig,
    heading_age: Real,
)
    requires
        ideal(ev),
    ensures
        ({
            let g = weighted_gains(cfg, None, heading_age);
            &&& ev(g.gain_p) == ev(num(cfg.gain_p))
            &&& ev(g.gain_i) == ev(num(cfg.gain_i))
            &&& ev(g.gain_d) == if (Real { bits: ZERO }).lt(cfg.dterm_quality_half_life_secs) {
                ev(num(cfg.gain_d)) * ev(quality(heading_age, cfg.dterm_quality_half_life_secs))
            } else {
                ev(num(cfg.gain_d))
            }
        }),
{
}

/// At a speed the P and I gains grow and the D gain shrinks with its ratio to the nominal speed,
/// which is kept between a least and a largest one.
pub proof fn gains_follow_the_speed(
    ev: spec_fn(Expr) -> real,
    cfg: AutopilotConfig,
    speed: Real,
    heading_age: Real,
)
    requires
        ideal(ev),
        speed.finite(),
        cfg.speed_nominal_mps.finite(),
        (Real { bits: ZERO }).lt(speed),
        (Real { bits: ZERO }).lt(cfg.speed_nominal_mps),
        cfg.dterm_quality_half_life_secs.le(Real { bits: ZERO }),
        0real < ev(lit(RATIO_MIN)) < ev(lit(RATIO_MAX)),
    ensures
        ({
            let g = weighted_gains(cfg, Some(speed), heading_age);
            let exact = ev(num(speed)) / ev(num(cfg.speed_nominal_mps));
            let ratio = if exact < ev(lit(RATIO_MIN)) {
                ev(lit(RATIO_MIN))
            } else if ev(lit(RATIO_MAX)) < exact {
                ev(lit(RATIO_MAX))
            } else {
                exact
            };
            &&& ev(g.gain_p) == ev(num(cfg.gain_p)) * ratio
            &&& ev(g.gain_i) == ev(num(cfg.gain_i)) * ratio
            &&& ev(g.gain_d) * ratio == ev(num(cfg.gain_d))
        }),
{
    let zero = Real { bits: ZERO };
    assert(!(ev(Expr::Lit(cfg.speed_nominal_mps)) <= ev(Expr::Lit(zero))));
    let r = speed_ratio(speed, cfg.speed_nominal_mps);
    quotient_times_divisor(ev(num(cfg.gain_d)), ev(r));
    let g = weighted_gains(cfg, Some(speed), heading_age);
    assert(g.gain_p == num(cfg.gain_p).times(r));
    assert(g.gain_d == num(cfg.gain_d).over(r));
}

/// In recovery the P and D gains are multiplied by the factor and the I gain is off; otherwise
/// the gains stay.
pub proof fn recovery_strengthens_p_and_d(
    ev: spec_fn(Expr) -> real,
    recovery: RecoveryState,
    gains: Gains,
    factor: Real,
)
    requires
        ideal(ev),
    ensures
        ({
            let g = recovery.adjusted(gains, factor);
            if recovery.active {
                &&& ev(g.gain_p) == ev(gains.gain_p) * ev(num(factor))
                &&& ev(g.gain_i) == 0real
                &&& ev(g.gain_d) == ev(gains.gain_d) * ev(num(factor))
            } else {
                g == gains
            }
        }),
{
}

// ---------------------------------------------------------------------------
// The rudder
// ---------------------------------------------------------------------------

/// A number, kept within a limit on both sides of zero.
pub open spec fn held(x: real, limit: real) -> real {
    if x < -limit {
        -limit
    } else if limit < x {
        limit
    } else {
        x
    }
}

/// Outside the dead zone the controller commands the sum of its parts: the P gain by the error,
/// the I gain by the integral, the D gain by the rate of the error, within the limit of the
/// rudder. The integral either stays or takes in the error over the time, within its limit; it
/// takes it in where error and integral differ in sign.
pub proof fn controller_adds_its_parts(
    ev: spec_fn(Expr) -> real,
    pid: PidController,
    error: Real,
    d_error: Real,
    dt: Real,
    cfg: PidConfig,
)
    requires
        ideal(ev),
        error.finite(),
        d_error.finite(),
        dt.finite(),
        (Real { bits: ZERO }).lt(dt),
        !error.unsigned().lt(cfg.dead_zone_rad),
        0real <= ev(num(cfg.max_rudder_rad)),
        0real <= ev(num(pid.integral_limit)),
    ensures
        ({
            let step = pid.step(error, d_error, dt, cfg);
            let before = ev(num(pid.integral));
            let taken_in = held(
                before + ev(num(error)) * ev(num(dt)),
                ev(num(pid.integral_limit)),
            );
            &&& ev(step.output) == held(
                ev(num(cfg.gain_p)) * ev(num(error)) + ev(num(cfg.gain_i)) * ev(step.integral) + ev(
                    num(cfg.gain_d),
                ) * ev(num(d_error)),
                ev(num(cfg.max_rudder_rad)),
            )
            &&& ev(step.integral) == before || ev(step.integral) == taken_in
            &&& !pid.integral.nan() && !pid.integral.zero() && error.negative()
                != pid.integral.negative() ==> ev(step.integral) == taken_in
            &&& held(
                ev(num(cfg.gain_p)) * ev(num(error)) + ev(num(cfg.gain_d)) * ev(num(d_error)) + ev(
                    num(cfg.gain_i),
                ) * before,
                ev(num(cfg.max_rudder_rad)),
            ) == ev(num(cfg.gain_p)) * ev(num(error)) + ev(num(cfg.gain_d)) * ev(num(d_error)) + ev(
                num(cfg.gain_i),
            ) * before && ev(pid.prospective(error, d_error, cfg).absolute()) < ev(
                num(cfg.max_rudder_rad),
            ) ==> ev(step.integral) == taken_in
        }),
{
    let sum = num(pid.integral).plus(num(error).times(num(dt)));
    assert(ev(num(error).times(num(dt))) == ev(num(error)) * ev(num(dt)));
    assert(ev(sum.clamped(num(pid.integral_limit).negated(), num(pid.integral_limit))) == held(
        ev(sum),
        ev(num(pid.integral_limit)),
    ));
    let i = pid.next_integral(error, d_error, dt, cfg);
    let p = num(cfg.gain_p).times(num(error));
    let d = num(cfg.gain_d).times(num(d_error));
    let total = p.plus(num(cfg.gain_i).times(i)).plus(d);
    assert(ev(p) == ev(num(cfg.gain_p)) * ev(num(error)));
    assert(ev(d) == ev(num(cfg.gain_d)) * ev(num(d_error)));
    assert(ev(num(cfg.gain_i).times(i)) == ev(num(cfg.gain_i)) * ev(i));
    assert(ev(total.clamped(num(cfg.max_rudder_rad).negated(), num(cfg.max_rudder_rad))) == held(
        ev(total),
        ev(num(cfg.max_rudder_rad)),
    ));
}

/// A vessel that is to turn to starboard gets starboard rudder: a positive error that does not
/// change, without an integral, gives a positive command, a negative one a negative command.
pub proof fn rudder_follows_the_error(
    ev: spec_fn(Expr) -> real,
    pid: PidController,
    error: Real,
    d_error: Real,
    dt: Real,
    cfg: PidConfig,
)
    requires
        ideal(ev),
        error.finite(),
        d_error.finite(),
        dt.finite(),
        (Real { bits: ZERO }).lt(dt),
        !error.unsigned().lt(cfg.dead_zone_rad),
        0real < ev(num(cfg.max_rudder_rad)),
        0real <= ev(num(pid.integral_limit)),
        0real < ev(num(cfg.gain_p)),
        ev(num(cfg.gain_i)) == 0real,
        ev(num(d_error)) == 0real,
    ensures
        ev(num(error)) > 0real <==> ev(pid.step(error, d_error, dt, cfg).output) > 0real,
        ev(num(error)) < 0real <==> ev(pid.step(error, d_error, dt, cfg).output) < 0real,
{
    controller_adds_its_parts(ev, pid, error, d_error, dt, cfg);
    let e = ev(num(error));
    let p = ev(num(cfg.gain_p));
    sign_of_product(e, p);
    signs_move_out(e, p);
    let step = pid.step(error, d_error, dt, cfg);
    let i = ev(step.integral);
    let g = ev(num(cfg.gain_d));
    assert(0real * i == 0real) by (nonlinear_arith);
    assert(g * 0real == 0real) by (nonlinear_arith);
}

/// The command of a tick is the controller's with what counters heel and gusts, within the
/// limit of the rudder, as far as the rudder's rate allows from the last command.
pub proof fn command_adds_heel_and_gust(
    ev: spec_fn(Expr) -> real,
    control: ControlLoop,
    snap: Snapshot,
    cv: ControlValues,
    dt: Real,
    cfg: AutopilotConfig,
)
    requires
        ideal(ev),
        dt.finite(),
        (Real { bits: ZERO }).lt(dt),
        cfg.max_rudder_rate_rad_per_sec.finite(),
        0real <= ev(num(cfg.max_rudder_rad)),
    ensures
        ({
            let pid = control.pid.step(
                cv.error,
                cv.d_error,
                dt,
                PidConfig {
                    gain_p: cv.gain_p,
                    gain_i: cv.gain_i,
                    gain_d: cv.gain_d,
                    dead_zone_rad: cfg.dead_zone_rad,
                    max_rudder_rad: cfg.max_rudder_rad,
                },
            );
            let heel = match snap.heel {
                Some(roll) => if cfg.heel_gain.zero() {
                    0real
                } else {
                    ev(num(cfg.heel_gain)) * ev(num(roll))
                },
                None => 0real,
            };
            let gust = match snap.wind_speed {
                Some(speed) => if cfg.gust_gain.zero() {
                    0real
                } else {
                    let rate = ev(control.gust_detector.next(speed, dt));
                    if ev(num(cfg.gust_threshold_mps_per_sec)) < rate || ev(
                        num(cfg.gust_threshold_mps_per_sec),
                    ) < -rate {
                        ev(num(cfg.gust_gain)) * rate
                    } else {
                        0real
                    }
                },
                None => 0real,
            };
            let aim = held(ev(pid.output) + heel + gust, ev(num(cfg.max_rudder_rad)));
            let r = ev(rudder_command(control, snap, cv, dt, cfg));
            let last = ev(num(snap.last_rudder));
            let reach = ev(num(cfg.max_rudder_rate_rad_per_sec)) * ev(num(dt));
            if cfg.max_rudder_rate_rad_per_sec.le(Real { bits: ZERO }) {
                r == aim
            } else {
                r == last + held(aim - last, reach)
            }
        }),
{
    let zero = Real { bits: ZERO };
    let max = num(cfg.max_rudder_rad);
    let pid = control.pid.step(cv.error, cv.d_error, dt, cv.tuning(cfg));
    let rate = gust_rate(control.gust_detector, cfg, snap.wind_speed, dt);
    let total = pid.output.plus(heel_term(cfg, snap.heel)).plus(gust_term(cfg, rate));
    if let Some(roll) = snap.heel {
        assert(ev(num(cfg.heel_gain).times(num(roll))) == ev(num(cfg.heel_gain)) * ev(num(roll)));
    }
    if let Some(e) = rate {
        assert(ev(num(cfg.gust_gain).times(e)) == ev(num(cfg.gust_gain)) * ev(e));
        assert(ev(gust_term(cfg, rate)) == if ev(num(cfg.gust_threshold_mps_per_sec)) < ev(
            e.absolute(),
        ) {
            ev(num(cfg.gust_gain).times(e))
        } else {
            ev(lit(ZERO))
        });
        assert(ev(e.absolute()) == if ev(e) < 0real {
            -ev(e)
        } else {
            ev(e)
        });
        if 0real <= ev(e) && ev(num(cfg.gust_threshold_mps_per_sec)) < -ev(e) {
            assert(ev(num(cfg.gust_threshold_mps_per_sec)) < ev(e));
        }
        if ev(e) < 0real && ev(num(cfg.gust_threshold_mps_per_sec)) < ev(e) {
            assert(ev(num(cfg.gust_threshold_mps_per_sec)) < -ev(e));
        }
    }
    let aim = total.clamped(max.negated(), max);
    assert(ev(aim) == held(ev(total), ev(max)));
    if !cfg.max_rudder_rate_rad_per_sec.le(zero) {
        let reach = num(cfg.max_rudder_rate_rad_per_sec).times(num(dt));
        assert(ev(reach) == ev(num(cfg.max_rudder_rate_rad_per_sec)) * ev(num(dt)));
        assert(!(ev(Expr::Lit(cfg.max_rudder_rate_rad_per_sec)) <= ev(Expr::Lit(zero))));
        assert(!(ev(Expr::Lit(dt)) <= ev(Expr::Lit(zero))));
        sign_of_product(ev(num(cfg.max_rudder_rate_rad_per_sec)), ev(num(dt)));
        let way = aim.minus(num(snap.last_rudder));
        assert(ev(way.clamped(reach.negated(), reach)) == held(ev(way), ev(reach)));
    }
}

/// The rate of the wind speed is the change from the last sample to the new one over the time,
/// smoothed; for the first sample it is zero.
pub proof fn gust_rate_is_change_over_time(
    ev: spec_fn(Expr) -> real,
    detector: RateDetector,
    value: Real,
    dt: Real,
)
    requires
        ideal(ev),
        dt.finite(),
        (Real { bits: ZERO }).lt(dt),
    ensures
        match detector.prev_value {
            Some(prev) => ev(detector.rate(value, dt)) * ev(num(dt)) == ev(num(value)) - ev(
                num(prev),
            ),
            None => ev(detector.rate(value, dt)) == 0real,
        },
        match detector.output_filter.value {
            Some(last) => ev(detector.next(value, dt)) - ev(num(last)) == ev(
                num(detector.output_filter.alpha),
            ) * (ev(detector.rate(value, dt)) - ev(num(last))),
            None => ev(detector.next(value, dt)) == ev(detector.rate(value, dt)),
        },
{
    assert(!(ev(Expr::Lit(dt)) <= ev(Expr::Lit(Real { bits: ZERO }))));
    if let Some(prev) = detector.prev_value {
        quotient_times_divisor(ev(num(value)) - ev(num(prev)), ev(num(dt)));
    }
    if let Some(last) = detector.output_filter.value {
        let rate = detector.rate(value, dt);
        let way = rate.minus(num(last));
        assert(ev(num(detector.output_filter.alpha).times(way)) == ev(
            num(detector.output_filter.alpha),
        ) * ev(way));
    }
}

// ---------------------------------------------------------------------------
// Reports and commands
// ---------------------------------------------------------------------------

/// The paths of a report are different ones.
#[verifier::spinoff_prover]
proof fn report_paths_differ()
    ensures
        "steering.autopilot.actions"@ != "steering.autopilot.engaged"@,
        "steering.autopilot.actions"@ != "steering.autopilot.mode"@,
        "steering.autopilot.actions"@ != "steering.autopilot.state"@,
        "steering.autopilot.actions"@ != "steering.autopilot.target.headingMagnetic"@,
        "steering.autopilot.actions"@ != "steering.autopilot.target.headingTrue"@,
        "steering.autopilot.actions"@ != "steering.autopilot.target.windAngleApparent"@,
        "steering.autopilot.actions"@ != "steering.autopilot.target.windAngleTrue"@,
        "steering.autopilot.engaged"@ != "steering.autopilot.mode"@,
        "steering.autopilot.engaged"@ != "steering.autopilot.state"@,
        "steering.autopilot.engaged"@ != "steering.autopilot.target.headingMagnetic"@,
        "steering.autopilot.engaged"@ != "steering.autopilot.target.headingTrue"@,
        "steering.autopilot.engaged"@ != "steering.autopilot.target.windAngleApparent"@,
        "steering.autopilot.engaged"@ != "steering.autopilot.target.windAngleTrue"@,
        "steering.autopilot.mode"@ != "steering.autopilot.state"@,
        "steering.autopilot.mode"@ != "steering.autopilot.target.headingMagnetic"@,
        "steering.autopilot.mode"@ != "steering.autopilot.target.headingTrue"@,
        "steering.autopilot.mode"@ != "steering.autopilot.target.windAngleApparent"@,
        "steering.autopilot.mode"@ != "steering.autopilot.target.windAngleTrue"@,
        "steering.autopilot.state"@ != "steering.autopilot.target.headingMagnetic"@,
        "steering.autopilot.state"@ != "steering.autopilot.target.headingTrue"@,
        "steering.autopilot.state"@ != "steering.autopilot.target.windAngleApparent"@,
        "steering.autopilot.state"@ != "steering.autopilot.target.windAngleTrue"@,
        "steering.autopilot.target.headingMagnetic"@ != "steering.autopilot.target.headingTrue"@,
        "steering.autopilot.target.headingMagnetic"@
            != "steering.autopilot.target.windAngleApparent"@,
        "steering.autopilot.target.headingMagnetic"@ != "steering.autopilot.target.windAngleTrue"@,
        "steering.autopilot.target.headingTrue"@ != "steering.autopilot.target.windAngleApparent"@,
        "steering.autopilot.target.headingTrue"@ != "steering.autopilot.target.windAngleTrue"@,
        "steering.autopilot.target.windAngleApparent"@
            != "steering.autopilot.target.windAngleTrue"@,
{
    reveal_strlit("steering.autopilot.actions");
    reveal_strlit("steering.autopilot.engaged");
    reveal_strlit("steering.autopilot.mode");
    reveal_strlit("steering.autopilot.state");
    reveal_strlit("steering.autopilot.target.headingMagnetic");
    reveal_strlit("steering.autopilot.target.headingTrue");
    reveal_strlit("steering.autopilot.target.windAngleApparent");
    reveal_strlit("steering.autopilot.target.windAngleTrue");
    assert("steering.autopilot.actions"@[19] == 'a');
    assert("steering.autopilot.actions"@.len() == 26);
    assert("steering.autopilot.engaged"@[19] == 'e');
    assert("steering.autopilot.engaged"@.len() == 26);
    assert("steering.autopilot.mode"@.len() == 23);
    assert("steering.autopilot.state"@.len() == 24);
    assert("steering.autopilot.target.headingMagnetic"@.len() == 41);
    assert("steering.autopilot.target.headingTrue"@.len() == 37);
    assert("steering.autopilot.target.windAngleApparent"@.len() == 43);
    assert("steering.autopilot.target.windAngleTrue"@.len() == 39);
}

/// A rudder command is told of the own vessel, as the rudder angle.
pub proof fn command_is_told_as_rudder_angle(rudder: Real)
    ensures
        rudder_delta_view(rudder).context == Some("vessels.self"@),
        told(Some(rudder_delta_view(rudder)), "steering.rudderAngle"@) == only(Expr::Lit(rudder)),
{
    broadcast use group_paths;

    let d = rudder_delta_view(rudder);
    one_update_tells_all(d, "steering.rudderAngle"@);
    assert(under(d.updates[0].values, "steering.rudderAngle"@) =~= only(Expr::Lit(rudder)));
}

/// A report tells whether the autopilot is engaged, its mode, and its target under the path of
/// the mode.
pub proof fn report_tells_state_mode_and_target(
    engaged: bool,
    mode: AutopilotMode,
    target: Option<Real>,
)
    ensures
        ({
            let d = state_delta_view(engaged, mode, target);
            &&& d.context == Some("vessels.self"@)
            &&& told(Some(d), "steering.autopilot.state"@) == seq![
                ValueView::Text(
                    if engaged {
                        "enabled"@
                    } else {
                        "disabled"@
                    },
                ),
            ]
            &&& told(Some(d), "steering.autopilot.engaged"@) == seq![ValueView::Bool(engaged)]
            &&& told(Some(d), "steering.autopilot.mode"@) == seq![
                ValueView::Text(
                    match mode {
                        AutopilotMode::Compass => "compass"@,
                        AutopilotMode::Wind => "wind"@,
                        AutopilotMode::WindTrue => "wind_true"@,
                        AutopilotMode::Route => "route"@,
                    },
                ),
            ]
            &&& target matches Some(t) ==> told(
                Some(d),
                match mode {
                    AutopilotMode::Compass => "steering.autopilot.target.headingMagnetic"@,
                    AutopilotMode::Wind => "steering.autopilot.target.windAngleApparent"@,
                    AutopilotMode::WindTrue => "steering.autopilot.target.windAngleTrue"@,
                    AutopilotMode::Route => "steering.autopilot.target.headingTrue"@,
                },
            ) == only(Expr::Lit(t))
        }),
{
    broadcast use group_paths;

    report_paths_differ();
    let d = state_delta_view(engaged, mode, target);
    one_update_tells_all(d, "steering.autopilot.state"@);
    one_update_tells_all(d, "steering.autopilot.engaged"@);
    one_update_tells_all(d, "steering.autopilot.mode"@);
    one_update_tells_all(d, mode.target());
    if let Some(t) = target {
        assert(under(d.updates[0].values, mode.target()) =~= only(Expr::Lit(t)));
    }
}

/// A manoeuvre keeps the wind angle where it is above the least one, and takes the least one
/// otherwise: to port it is negative, to starboard positive.
pub proof fn manoeuvre_keeps_the_angle(current: Real, direction: TackDirection)
    requires
        !current.nan(),
    ensures
        ({
            let least = Real { bits: MIN_WIND_ANGLE };
            let r = mirrored(current, direction);
            &&& least.lt(current.unsigned()) ==> r.unsigned() == current.unsigned()
            &&& !least.lt(current.unsigned()) ==> r.unsigned() == least
            &&& direction is Port <==> r.negative()
        }),
{
}

/// One more update counts as feedback of the rudder unless the autopilot sent it: a plugin of that
/// name. What a plugin of another name sends, or another kind of source of this name, counts.
pub proof fn own_rudder_reports_do_not_count(
    state: StateView,
    updates: Seq<IncomingUpdateView>,
    u: IncomingUpdateView,
    now: u64,
)
    ensures
        ({
            let before = state.with_updates(updates, now);
            let after = state.with_updates(updates.push(u), now);
            let own = u.source.label == "autopilot"@ && (u.source.kind is Plugin
                || u.source.kind == SourceKindView::Other { type_: "Plugin"@ });
            &&& own ==> after.actual_rudder_rad == before.actual_rudder_rad
            &&& !own ==> (match last_number(u.values, "steering.rudderAngle"@) {
                Some(v) => after.actual_rudder_rad == Some(v) && after.actual_rudder_last_seen
                    == Some(now),
                None => after.actual_rudder_rad == before.actual_rudder_rad,
            })
        }),
        state.with_updates(Seq::empty(), now) == state,
{
    let before = state.with_updates(updates, now);
    assert(updates.push(u).drop_last() =~= updates);
    reveal_strlit("Plugin");
    reveal_strlit("NMEA0183");
    reveal_strlit("NMEA2000");
    assert("Plugin"@.len() == 6 && "NMEA0183"@.len() == 8 && "NMEA2000"@.len() == 8);
    sensors_have_what_was_received_last(before, false, u.values, now, "steering.rudderAngle"@);
    own_readings_keep_the_rudder(before, u.values, now);
}

/// What the autopilot itself sent does not count as feedback.
proof fn own_readings_keep_the_rudder(state: StateView, values: Seq<ReadingView>, now: u64)
    ensures
        state.with_readings(true, values, now).actual_rudder_rad == state.actual_rudder_rad,
    decreases values.len(),
{
    if values.len() > 0 {
        own_readings_keep_the_rudder(state, values.drop_last(), now);
    }
}

/// While the controller without this tick's error already asks for all of the rudder, to either
/// side, an error that does not work against the integral is not taken in.
pub proof fn integral_waits_at_the_stop(
    ev: spec_fn(Expr) -> real,
    pid: PidController,
    error: Real,
    d_error: Real,
    dt: Real,
    cfg: PidConfig,
)
    requires
        ideal(ev),
        error.finite(),
        d_error.finite(),
        dt.finite(),
        (Real { bits: ZERO }).lt(dt),
        !error.unsigned().lt(cfg.dead_zone_rad),
        !pid.integral.nan(),
        pid.integral.zero() || error.negative() == pid.integral.negative(),
        0real <= ev(num(pid.integral_limit)),
    ensures
        ({
            let before = ev(num(pid.integral));
            let asked = ev(num(cfg.gain_p)) * ev(num(error)) + ev(num(cfg.gain_d)) * ev(
                num(d_error),
            ) + ev(num(cfg.gain_i)) * before;
            let most = ev(num(cfg.max_rudder_rad));
            ev(pid.step(error, d_error, dt, cfg).integral) == if asked >= most || -asked >= most {
                before
            } else {
                held(before + ev(num(error)) * ev(num(dt)), ev(num(pid.integral_limit)))
            }
        }),
{
    let sum = num(pid.integral).plus(num(error).times(num(dt)));
    assert(ev(num(error).times(num(dt))) == ev(num(error)) * ev(num(dt)));
    assert(ev(sum.clamped(num(pid.integral_limit).negated(), num(pid.integral_limit))) == held(
        ev(sum),
        ev(num(pid.integral_limit)),
    ));
    assert(ev(num(cfg.gain_p).times(num(error))) == ev(num(cfg.gain_p)) * ev(num(error)));
    assert(ev(num(cfg.gain_d).times(num(d_error))) == ev(num(cfg.gain_d)) * ev(num(d_error)));
    assert(ev(num(cfg.gain_i).times(num(pid.integral))) == ev(num(cfg.gain_i)) * ev(
        num(pid.integral),
    ));
}

/// The state is reported every so many ticks as the rate of control is a multiple of the rate of
/// reports, to the nearest, and at least every tick once. Reports below the least rate count as
/// that rate.
pub proof fn reports_keep_their_rate(
    ev: spec_fn(Expr) -> real,
    control: Real,
    output: Real,
) -> (ratio: Expr)
    requires
        ideal(ev),
        0real < ev(lit(MIN_RATE_HZ)),
    ensures
        ({
            let rate = if ev(num(output)) < ev(lit(MIN_RATE_HZ)) {
                ev(lit(MIN_RATE_HZ))
            } else {
                ev(num(output))
            };
            &&& ev(ratio) * rate == ev(num(control))
            &&& ev(output_every(control, output)) == if ev(ratio.round()) < ev(lit(ONE)) {
                ev(lit(ONE))
            } else {
                ev(ratio.round())
            }
        }),
{
    let rate = num(output).max(lit(MIN_RATE_HZ));
    let ratio = num(control).over(rate);
    quotient_times_divisor(ev(num(control)), ev(rate));
    ratio
}

/// The mismatch of the rudder is how far the actual angle is from the commanded one, to either
/// side.
pub proof fn mismatch_is_a_distance(ev: spec_fn(Expr) -> real, commanded: Expr, actual: Real)
    requires
        ideal(ev),
    ensures
        ({
            let off = ev(rudder_mismatch(commanded, actual));
            &&& off >= 0real
            &&& ev(commanded) == ev(num(actual)) + off || ev(commanded) == ev(num(actual)) - off
        }),
{
}

/// Ticks follow each other at the rate of control, or at the least rate where that is higher.
pub proof fn ticks_keep_their_rate(ev: spec_fn(Expr) -> real, control: Real)
    requires
        ideal(ev),
        0real < ev(lit(MIN_RATE_HZ)),
    ensures
        ev(control_interval(control)) * (if ev(num(control)) < ev(lit(MIN_RATE_HZ)) {
            ev(lit(MIN_RATE_HZ))
        } else {
            ev(num(control))
        }) == ev(lit(ONE)),
{
    let rate = num(control).max(lit(MIN_RATE_HZ));
    quotient_times_divisor(ev(lit(ONE)), ev(rate));
}

/// A manoeuvre in a wind mode is carried out unless it hardly changes the target; in other modes
/// it never is. Where it is carried out, the target is on the side that was asked for and the
/// derivative starts afresh; all else stays.
pub proof fn manoeuvres_need_wind_and_a_change(
    state: StateView,
    manoeuvre: Manoeuvre,
    direction: TackDirection,
    change: Real,
)
    ensures
        ({
            let after = AutopilotState::manoeuvred(state, direction, change);
            let refused = AutopilotState::manoeuvre_refusal(state, manoeuvre, change);
            let wind = state.mode is Wind || state.mode is WindTrue;
            let slight = change.lt(Real { bits: SAME_TACK });
            &&& refused is None <==> wind && !slight
            &&& !wind <==> refused is Some && refused->0 is NotFound
            &&& wind && slight <==> refused is Some && refused->0 is Runtime
            &&& refused is None ==> after.target_rad is Some && after.target_rad->0.negative() == (
            direction is Port)
            &&& refused is None ==> after == (StateView {
                target_rad: after.target_rad,
                last_error_rad: Real { bits: 0 },
                ..state
            })
            &&& refused is Some ==> after == state
        }),
{
}

} // verus!
