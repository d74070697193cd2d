//! What holds of the values of the autopilot's formulas.
use crate::autopilot::pd::{
    normalize_angle, recovery_exit, PidConfig, PidController, RecoveryState,
};
use crate::autopilot::state::AutopilotConfig;
use crate::autopilot::tick::{
    compass_failure_view, feedback_view, gust_rate, gust_term, heel_term, report, rudder_command,
    rudder_delta_view, timeout_view, ControlLoop, ControlValues, Snapshot,
};
use crate::evaluation::{exact, faithful, unrolls, within, MILLION, TRILLION};
use crate::expr::{lit, num, Expr};
use crate::number::Real;
use crate::signalk::{DeltaView, ValueView};
use crate::units::{PI, TAU, ZERO};
use vstd::prelude::*;

verus! {

// ---------------------------------------------------------------------------
// Angles
// ---------------------------------------------------------------------------

/// An angle with a number of turns taken away, or added where the number is negative.
pub open spec fn turned(a: Expr, turns: int) -> Expr
    decreases (if turns < 0 {
        -turns
    } else {
        turns
    }),
{
    if turns > 0 {
        turned(a.minus(lit(TAU)), turns - 1)
    } else if turns < 0 {
        turned(a.plus(lit(TAU)), turns + 1)
    } else {
        a
    }
}

/// An angle above minus half a turn is normalized by taking turns away.
proof fn turns_taken_away(ev: spec_fn(Expr) -> Real, a: Expr) -> (turns: nat)
    requires
        faithful(ev),
        (Real { bits: PI }).opposite().le(ev(a)),
        ev(a).le(Real { bits: MILLION }),
    ensures
        within(ev(normalize_angle(a)), Real { bits: PI }),
        ev(normalize_angle(a)) == ev(turned(a, turns as int)),
    decreases ev(a).magnitude(),
{
    let half = Real { bits: PI };
    assert(unrolls(ev, a));
    if half.lt(ev(a)) {
        let next = a.minus(lit(TAU));
        assert(half.opposite().le(ev(next)) && ev(next).lt(ev(a)));
        let rest = turns_taken_away(ev, next);
        assert(turned(a, rest as int + 1) == turned(next, rest as int));
        rest + 1
    } else {
        0
    }
}

/// An angle below half a turn is normalized by adding turns.
proof fn turns_added(ev: spec_fn(Expr) -> Real, a: Expr) -> (turns: nat)
    requires
        faithful(ev),
        (Real { bits: MILLION }).opposite().le(ev(a)),
        ev(a).le(Real { bits: PI }),
    ensures
        within(ev(normalize_angle(a)), Real { bits: PI }),
        ev(normalize_angle(a)) == ev(turned(a, -turns)),
    decreases ev(a).magnitude(),
{
    let half = Real { bits: PI };
    assert(unrolls(ev, a));
    if ev(a).lt(half.opposite()) {
        let next = a.plus(lit(TAU));
        assert(ev(a).lt(ev(next)) && ev(next).le(half));
        let rest = turns_added(ev, next);
        assert(turned(a, -(rest + 1)) == turned(next, -rest));
        rest + 1
    } else {
        0
    }
}

/// A normalized angle lies within half a turn of zero, and differs from the angle by
/// whole turns.
pub proof fn normalized_angle_is_in_range(ev: spec_fn(Expr) -> Real, a: Expr)
    requires
        faithful(ev),
        within(ev(a), Real { bits: MILLION }),
    ensures
        within(ev(normalize_angle(a)), Real { bits: PI }),
        exists|turns: int| ev(normalize_angle(a)) == ev(#[trigger] turned(a, turns)),
{
    if (Real { bits: PI }).opposite().le(ev(a)) {
        let turns = turns_taken_away(ev, a);
        assert(ev(normalize_angle(a)) == ev(turned(a, turns as int)));
    } else {
        let turns = turns_added(ev, a);
        assert(ev(normalize_angle(a)) == ev(turned(a, -turns)));
    }
}

/// An angle within half a turn of zero is left alone.
pub proof fn angle_in_range_stays(ev: spec_fn(Expr) -> Real, a: Expr)
    requires
        faithful(ev),
        within(ev(a), Real { bits: PI }),
    ensures
        ev(normalize_angle(a)) == ev(a),
{
    assert(unrolls(ev, a));
}

/// Normalizing an angle twice is normalizing it once.
pub proof fn normalizing_is_idempotent(ev: spec_fn(Expr) -> Real, a: Expr)
    requires
        faithful(ev),
        within(ev(a), Real { bits: MILLION }),
    ensures
        ev(normalize_angle(normalize_angle(a))) == ev(normalize_angle(a)),
{
    normalized_angle_is_in_range(ev, a);
    angle_in_range_stays(ev, normalize_angle(a));
}

// ---------------------------------------------------------------------------
// Controller
// ---------------------------------------------------------------------------

/// A call of the controller.
pub enum PidCall {
    Reset,
    Compute { error: Real, d_error: Real, dt: Real, cfg: PidConfig },
}

/// The controller after a call.
pub open spec fn called(
    ev: spec_fn(Expr) -> Real,
    pid: PidController,
    call: PidCall,
) -> PidController {
    let integral = match call {
        PidCall::Reset => Real { bits: ZERO },
        PidCall::Compute { error, d_error, dt, cfg } => ev(
            pid.step(error, d_error, dt, cfg).integral,
        ),
    };
    PidController { integral, ..pid }
}

/// A new controller after a series of calls.
pub open spec fn controlled(
    ev: spec_fn(Expr) -> Real,
    limit: Real,
    calls: Seq<PidCall>,
) -> PidController
    decreases calls.len(),
{
    if calls.len() == 0 {
        PidController { integral: Real { bits: ZERO }, integral_limit: limit }
    } else {
        called(ev, controlled(ev, limit, calls.drop_last()), calls.last())
    }
}

/// One tick keeps the integral within its limit.
pub proof fn tick_keeps_integral_in_range(
    ev: spec_fn(Expr) -> Real,
    pid: PidController,
    error: Real,
    d_error: Real,
    dt: Real,
    cfg: PidConfig,
)
    requires
        faithful(ev),
        pid.integral_limit.finite(),
        within(pid.integral, pid.integral_limit),
    ensures
        within(ev(pid.step(error, d_error, dt, cfg).integral), pid.integral_limit),
{
    if PidController::usable(error, d_error, dt) {
        if error.unsigned().lt(cfg.dead_zone_rad) {
        } else {
            let low = num(pid.integral_limit).negated();
            let high = num(pid.integral_limit);
            let sum = num(pid.integral).plus(num(error).times(num(dt)));
            assert(!ev(num(error).times(num(dt))).nan());
            assert(!ev(sum).nan());
            assert(ev(low).le(ev(high)));
            assert(pid.integrated(error, dt) == sum.clamped(low, high));
            assert(within(ev(pid.integrated(error, dt)), pid.integral_limit));
        }
    }
}

/// After any series of computed commands and resets, the integral of a controller lies
/// within its limit.
pub proof fn integral_stays_in_range(
    ev: spec_fn(Expr) -> Real,
    limit: Real,
    calls: Seq<PidCall>,
)
    requires
        faithful(ev),
        limit.finite(),
        (Real { bits: ZERO }).le(limit),
    ensures
        within(controlled(ev, limit, calls).integral, limit),
        controlled(ev, limit, calls).integral_limit == limit,
    decreases calls.len(),
{
    if calls.len() > 0 {
        integral_stays_in_range(ev, limit, calls.drop_last());
        let pid = controlled(ev, limit, calls.drop_last());
        match calls.last() {
            PidCall::Reset => {},
            PidCall::Compute { error, d_error, dt, cfg } => {
                tick_keeps_integral_in_range(ev, pid, error, d_error, dt, cfg);
            },
        }
    }
}

/// Gains, limits and inputs of ordinary size: none is above 1e6.
pub open spec fn moderate(
    pid: PidController,
    error: Real,
    d_error: Real,
    cfg: PidConfig,
) -> bool {
    let m = Real { bits: MILLION };
    &&& within(error, m)
    &&& within(d_error, m)
    &&& within(cfg.gain_p, m)
    &&& within(cfg.gain_i, m)
    &&& within(cfg.gain_d, m)
    &&& pid.integral_limit.le(m)
    &&& (Real { bits: ZERO }).le(cfg.max_rudder_rad)
}

/// The rudder command of a controller whose integral lies within its limit lies within
/// the limit of the rudder.
pub proof fn tick_keeps_rudder_in_range(
    ev: spec_fn(Expr) -> Real,
    pid: PidController,
    error: Real,
    d_error: Real,
    dt: Real,
    cfg: PidConfig,
)
    requires
        faithful(ev),
        within(pid.integral, pid.integral_limit),
        moderate(pid, error, d_error, cfg),
    ensures
        within(ev(pid.step(error, d_error, dt, cfg).output), cfg.max_rudder_rad),
{
    if PidController::usable(error, d_error, dt) && !error.unsigned().lt(cfg.dead_zone_rad) {
        tick_keeps_integral_in_range(ev, pid, error, d_error, dt, cfg);
        let integral = pid.next_integral(error, d_error, dt, cfg);
        assert(within(ev(integral), Real { bits: MILLION }));
        let p = num(cfg.gain_p).times(num(error));
        let i = num(cfg.gain_i).times(integral);
        let d = num(cfg.gain_d).times(num(d_error));
        assert(ev(p.plus(i)).finite());
        assert(!ev(d).nan());
        assert(!ev(p.plus(i).plus(d)).nan());
        let low = num(cfg.max_rudder_rad).negated();
        let high = num(cfg.max_rudder_rad);
        assert(ev(low).le(ev(high)));
        assert(pid.step(error, d_error, dt, cfg).output == p.plus(i).plus(d).clamped(low, high));
    }
}

/// After any series of computed commands and resets, the next rudder command lies within
/// the limit of the rudder.
pub proof fn rudder_stays_in_range(
    ev: spec_fn(Expr) -> Real,
    limit: Real,
    calls: Seq<PidCall>,
    error: Real,
    d_error: Real,
    dt: Real,
    cfg: PidConfig,
)
    requires
        faithful(ev),
        (Real { bits: ZERO }).le(limit),
        moderate(controlled(ev, limit, Seq::empty()), error, d_error, cfg),
    ensures
        within(
            ev(controlled(ev, limit, calls).step(error, d_error, dt, cfg).output),
            cfg.max_rudder_rad,
        ),
{
    integral_stays_in_range(ev, limit, calls);
    tick_keeps_rudder_in_range(ev, controlled(ev, limit, calls), error, d_error, dt, cfg);
}

// ---------------------------------------------------------------------------
// Recovery
// ---------------------------------------------------------------------------

/// What one tick makes of recovery. It ends below 30 per cent of the threshold; it begins
/// exactly where the error exceeds the threshold and more than one tick is allowed; a
/// threshold of zero or less changes nothing.
pub proof fn recovery_begins_above_threshold(
    ev: spec_fn(Expr) -> Real,
    state: RecoveryState,
    error: Real,
    threshold: Real,
    max_ticks: u32,
)
    requires
        faithful(ev),
        error.finite(),
        threshold.finite(),
    ensures
        ({
            let exit = ev(recovery_exit(threshold));
            let after = state.next(error, threshold, exit, max_ticks);
            if threshold.le(Real { bits: ZERO }) {
                after == state
            } else {
                &&& after.active ==> exit.le(error.unsigned())
                &&& !state.active ==> (after.active <==> threshold.lt(error.unsigned())
                    && max_ticks > 1)
            }
        }),
{
    let exit = ev(recovery_exit(threshold));
    assert(within(exit, threshold.unsigned()));
}

/// Recovery after a series of ticks, each with its error, its threshold and the error below
/// which recovery ends.
pub open spec fn recovery_after(
    state: RecoveryState,
    ticks: Seq<(Real, Real, Real)>,
    max_ticks: u32,
) -> RecoveryState
    decreases ticks.len(),
{
    if ticks.len() == 0 {
        state
    } else {
        let t = ticks.last();
        recovery_after(state, ticks.drop_last(), max_ticks).next(t.0, t.1, t.2, max_ticks)
    }
}

/// What the last of a series of ticks reports: recovery is enabled and active.
pub open spec fn recovery_reported(
    state: RecoveryState,
    ticks: Seq<(Real, Real, Real)>,
    max_ticks: u32,
) -> bool {
    !ticks.last().1.le(Real { bits: ZERO }) && recovery_after(state, ticks, max_ticks).active
}

/// A state that ticks lead to: while recovery is active there are ticks left, fewer than
/// allowed.
proof fn ticks_left_are_bounded(ticks: Seq<(Real, Real, Real)>, max_ticks: u32)
    ensures
        ({
            let s = recovery_after(RecoveryState::new(), ticks, max_ticks);
            s.active ==> 0 < s.ticks_remaining < max_ticks
        }),
    decreases ticks.len(),
{
    if ticks.len() > 0 {
        ticks_left_are_bounded(ticks.drop_last(), max_ticks);
    }
}

/// A run of ticks that all report recovery takes one tick after the other.
proof fn run_uses_up_ticks(
    state: RecoveryState,
    run: Seq<(Real, Real, Real)>,
    max_ticks: u32,
)
    requires
        state.active ==> 0 < state.ticks_remaining < max_ticks,
        forall|n: int|
            0 < n <= run.len() ==> #[trigger] recovery_reported(state, run.take(n), max_ticks),
    ensures
        ({
            let s = recovery_after(state, run, max_ticks);
            run.len() > 0 ==> s.active && 0 < s.ticks_remaining <= max_ticks - run.len()
        }),
    decreases run.len(),
{
    if run.len() > 0 {
        let before = run.drop_last();
        assert forall|n: int| 0 < n <= before.len() implies #[trigger] recovery_reported(
            state,
            before.take(n),
            max_ticks,
        ) by {
            assert(before.take(n) =~= run.take(n));
        }
        run_uses_up_ticks(state, before, max_ticks);
        assert(run.take(run.len() as int) =~= run);
        assert(recovery_reported(state, run.take(run.len() as int), max_ticks));
        if before.len() == 0 {
            assert(recovery_after(state, before, max_ticks) == state);
        }
    }
}

/// However recovery came about, fewer than `max_ticks` ticks in a row report it.
pub proof fn recovery_runs_are_short(
    past: Seq<(Real, Real, Real)>,
    run: Seq<(Real, Real, Real)>,
    max_ticks: u32,
)
    requires
        run.len() > 0,
        forall|n: int|
            0 < n <= run.len() ==> #[trigger] recovery_reported(
                recovery_after(RecoveryState::new(), past, max_ticks),
                run.take(n),
                max_ticks,
            ),
    ensures
        run.len() < max_ticks,
{
    ticks_left_are_bounded(past, max_ticks);
    run_uses_up_ticks(recovery_after(RecoveryState::new(), past, max_ticks), run, max_ticks);
}

// ---------------------------------------------------------------------------
// Rudder
// ---------------------------------------------------------------------------

/// The rudder that a tick aims at: the controller's command with what counters heel and
/// gusts, within the limit of the rudder.
pub open spec fn aimed_rudder(
    control: ControlLoop,
    snap: Snapshot,
    cv: ControlValues,
    dt: Real,
    cfg: AutopilotConfig,
) -> Expr {
    control.pid.step(cv.error, cv.d_error, dt, cv.tuning(cfg)).output.plus(
        heel_term(cfg, snap.heel),
    ).plus(
        gust_term(cfg, gust_rate(control.gust_detector, cfg, snap.wind_speed, dt)),
    ).clamped(num(cfg.max_rudder_rad).negated(), num(cfg.max_rudder_rad))
}

/// How far the rudder moves towards that in a tick.
pub open spec fn rudder_step(last: Real, aim: Expr, rate: Real, dt: Real) -> Expr {
    aim.minus(num(last)).clamped(
        num(rate).times(num(dt)).negated(),
        num(rate).times(num(dt)),
    )
}

/// Successive rudder commands differ by no more than the rudder's rate allows in the time
/// between them, and lie within the limit of the rudder, what counters heel and gusts
/// included. This holds up to rounding: in exact arithmetic.
pub proof fn rudder_moves_at_limited_rate(
    ex: spec_fn(Expr) -> int,
    control: ControlLoop,
    snap: Snapshot,
    cv: ControlValues,
    dt: Real,
    cfg: AutopilotConfig,
)
    requires
        exact(ex),
        cfg.max_rudder_rad.finite(),
        (Real { bits: ZERO }).le(cfg.max_rudder_rad),
        within(snap.last_rudder, cfg.max_rudder_rad),
        cfg.max_rudder_rate_rad_per_sec.finite(),
        (Real { bits: ZERO }).lt(cfg.max_rudder_rate_rad_per_sec),
        dt.finite(),
        (Real { bits: ZERO }).lt(dt),
    ensures
        ({
            let r = ex(rudder_command(control, snap, cv, dt, cfg));
            let last = ex(num(snap.last_rudder));
            let reach = ex(num(cfg.max_rudder_rate_rad_per_sec).times(num(dt)));
            let max = ex(num(cfg.max_rudder_rad));
            &&& -reach <= r - last <= reach
            &&& -max <= r <= max
        }),
{
    let zero = Real { bits: ZERO };
    let max = num(cfg.max_rudder_rad);
    let rate = cfg.max_rudder_rate_rad_per_sec;
    let aim = aimed_rudder(control, snap, cv, dt, cfg);
    assert(ex(Expr::Lit(zero)) <= ex(Expr::Lit(cfg.max_rudder_rad)));
    assert(ex(Expr::Lit(zero)) <= ex(Expr::Lit(rate)));
    assert(ex(Expr::Lit(zero)) <= ex(Expr::Lit(dt)));
    assert(ex(num(rate).times(num(dt))) >= 0);
    assert(ex(max.negated()) == -ex(max));
    assert(-ex(max) <= ex(aim) <= ex(max));
    assert(ex(Expr::Lit(snap.last_rudder)) <= ex(Expr::Lit(cfg.max_rudder_rad)));
    assert(ex(Expr::Lit(cfg.max_rudder_rad.opposite())) <= ex(Expr::Lit(snap.last_rudder)));
    let step = rudder_step(snap.last_rudder, aim, rate, dt);
    assert(rudder_command(control, snap, cv, dt, cfg) == num(snap.last_rudder).plus(step));
    assert(ex(num(rate).times(num(dt)).negated()) == -ex(num(rate).times(num(dt))));
}

/// What counters heel and gusts is of ordinary size: no part of it is above 1e6.
pub open spec fn moderate_feedforward(
    ev: spec_fn(Expr) -> Real,
    control: ControlLoop,
    snap: Snapshot,
    dt: Real,
    cfg: AutopilotConfig,
) -> bool {
    let m = Real { bits: MILLION };
    &&& within(cfg.heel_gain, m)
    &&& snap.heel matches Some(roll) ==> within(roll, m)
    &&& within(cfg.gust_gain, m)
    &&& gust_rate(control.gust_detector, cfg, snap.wind_speed, dt) matches Some(rate) ==> within(
        ev(rate),
        m,
    )
    &&& within(cfg.max_rudder_rad, m)
}

/// In double arithmetic a rudder command is the last one plus a step; the step is no longer
/// than the rudder's rate allows, and leads towards an aim within the limit of the rudder.
/// Where the rate is not limited, the command is that aim.
pub proof fn rudder_steps_towards_its_aim(
    ev: spec_fn(Expr) -> Real,
    control: ControlLoop,
    snap: Snapshot,
    cv: ControlValues,
    dt: Real,
    cfg: AutopilotConfig,
)
    requires
        faithful(ev),
        within(control.pid.integral, control.pid.integral_limit),
        moderate(control.pid, cv.error, cv.d_error, cv.tuning(cfg)),
        moderate_feedforward(ev, control, snap, dt, cfg),
        snap.last_rudder.finite(),
        cfg.max_rudder_rate_rad_per_sec.finite(),
    ensures
        ({
            let zero = Real { bits: ZERO };
            let rate = cfg.max_rudder_rate_rad_per_sec;
            let aim = aimed_rudder(control, snap, cv, dt, cfg);
            let command = rudder_command(control, snap, cv, dt, cfg);
            &&& within(ev(aim), cfg.max_rudder_rad)
            &&& if rate.le(zero) || !dt.finite() || dt.le(zero) {
                command == aim
            } else {
                let step = rudder_step(snap.last_rudder, aim, rate, dt);
                let reach = ev(num(rate).times(num(dt)));
                &&& command == num(snap.last_rudder).plus(step)
                &&& within(ev(step), reach)
                &&& {
                    ||| ev(step) == ev(aim.minus(num(snap.last_rudder)))
                    ||| ev(step) == reach
                    ||| ev(step) == reach.opposite()
                }
            }
        }),
{
    let zero = Real { bits: ZERO };
    let rate = cfg.max_rudder_rate_rad_per_sec;
    let aim = aimed_rudder(control, snap, cv, dt, cfg);
    let output = control.pid.step(cv.error, cv.d_error, dt, cv.tuning(cfg)).output;
    let heel = heel_term(cfg, snap.heel);
    let gust = gust_term(cfg, gust_rate(control.gust_detector, cfg, snap.wind_speed, dt));
    tick_keeps_rudder_in_range(ev, control.pid, cv.error, cv.d_error, dt, cv.tuning(cfg));
    assert(within(ev(heel), Real { bits: TRILLION }));
    assert(within(ev(gust), Real { bits: TRILLION }));
    assert(ev(output.plus(heel)).finite());
    assert(!ev(output.plus(heel).plus(gust)).nan());
    let high = num(cfg.max_rudder_rad);
    assert(ev(high.negated()).le(ev(high)));
    assert(within(ev(aim), cfg.max_rudder_rad));
    if !(rate.le(zero) || !dt.finite() || dt.le(zero)) {
        let reach = num(rate).times(num(dt));
        assert(zero.le(ev(reach)));
        assert(ev(reach.negated()).le(ev(reach)));
        assert(!ev(aim.minus(num(snap.last_rudder))).nan());
    }
}

/// Every rudder command among some deltas is the given one.
pub open spec fn commands_only(deltas: Seq<DeltaView>, rudder: Real) -> bool {
    forall|i: int, j: int, k: int|
        #![trigger deltas[i].updates[j].values[k]]
        0 <= i < deltas.len() && 0 <= j < deltas[i].updates.len() && 0 <= k
            < deltas[i].updates[j].values.len() && deltas[i].updates[j].values[k].path
            == "steering.rudderAngle"@ ==> deltas[i].updates[j].values[k].value
            == ValueView::Number(num(rudder))
}

/// A tick sends no other rudder command than the one it has worked out, or the rudder
/// amidships where the autopilot disengages itself.
pub proof fn only_known_rudder_commands(
    snap: Snapshot,
    emit: bool,
    rudder: Real,
    before: bool,
    after: bool,
    commanded: Seq<char>,
    actual: Seq<char>,
)
    ensures
        commands_only(report(snap, emit), Real { bits: ZERO }),
        commands_only(timeout_view(snap, emit).deltas, Real { bits: ZERO }),
        commands_only(compass_failure_view().deltas, Real { bits: ZERO }),
        commands_only(seq![rudder_delta_view(rudder)], rudder),
        commands_only(feedback_view(before, after, commanded, actual).deltas, rudder),
{
    reveal_strlit("steering.rudderAngle");
    reveal_strlit("steering.autopilot.state");
    reveal_strlit("steering.autopilot.mode");
    reveal_strlit("steering.autopilot.engaged");
    reveal_strlit("steering.autopilot.actions");
    reveal_strlit("steering.autopilot.target.headingMagnetic");
    reveal_strlit("steering.autopilot.target.windAngleApparent");
    reveal_strlit("steering.autopilot.target.windAngleTrue");
    reveal_strlit("steering.autopilot.target.headingTrue");
    reveal_strlit("notifications.");
    reveal_strlit("steering.autopilot.dataTimeout");
    reveal_strlit("steering.autopilot.heading");
    reveal_strlit("steering.autopilot.rudderFeedbackFailure");
    assert("steering.rudderAngle"@.len() == 20);
    assert("steering.autopilot.state"@.len() == 24);
    assert("steering.autopilot.mode"@.len() == 23);
    assert("steering.autopilot.engaged"@.len() == 26);
    assert("steering.autopilot.actions"@.len() == 26);
    assert(snap.mode.target().len() > 20);
}

} // verus!
