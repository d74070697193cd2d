//! What holds of the autopilot over several ticks.
use crate::autopilot::pd::{
    HeadingPlausibility, PidConfig, PidController, PlausibilityResult, RecoveryState,
    RudderFeedbackMonitor,
};
use crate::autopilot::state::{AutopilotMode, StateView};
use crate::autopilot::tick::{disengaged, feedback_view, snapshot_view, ControlLoop};
use crate::expr::{lit, num};
use crate::number::Real;
use crate::units::ZERO;
use vstd::prelude::*;

verus! {

/// The rudder monitor after a number of ticks.
pub open spec fn monitored(
    monitor: RudderFeedbackMonitor,
    mismatches: Seq<Option<Real>>,
    threshold: Real,
    timeout_ticks: u32,
) -> RudderFeedbackMonitor
    decreases mismatches.len(),
{
    if mismatches.len() == 0 {
        monitor
    } else {
        monitored(monitor, mismatches.drop_last(), threshold, timeout_ticks).next(
            mismatches.last(),
            threshold,
            timeout_ticks,
        )
    }
}

/// The rudder alarm takes `timeout_ticks` mismatches in a row: it is off before that
/// many, and on from then on.
pub proof fn alarm_needs_consecutive_mismatches(
    mismatches: Seq<Option<Real>>,
    threshold: Real,
    timeout_ticks: u32,
)
    requires
        0 < mismatches.len() < u32::MAX,
        !threshold.le(Real { bits: ZERO }),
        forall|i: int|
            0 <= i < mismatches.len() ==> (#[trigger] mismatches[i] matches Some(m)
                && threshold.lt(m)),
    ensures
        ({
            let after = monitored(
                RudderFeedbackMonitor::new(),
                mismatches,
                threshold,
                timeout_ticks,
            );
            &&& after.mismatch_ticks == mismatches.len()
            &&& after.alarm_active == (mismatches.len() >= timeout_ticks)
        }),
    decreases mismatches.len(),
{
    let before = mismatches.drop_last();
    reveal_with_fuel(monitored, 2);
    assert(mismatches.last() == mismatches[mismatches.len() - 1]);
    if before.len() > 0 {
        assert forall|i: int| 0 <= i < before.len() implies (#[trigger] before[i] matches Some(m)
            && threshold.lt(m)) by {
            assert(before[i] == mismatches[i]);
        }
        alarm_needs_consecutive_mismatches(before, threshold, timeout_ticks);
    }
}

/// A single match clears the rudder alarm and the count of mismatches.
pub proof fn one_match_clears_alarm(
    monitor: RudderFeedbackMonitor,
    mismatch: Real,
    threshold: Real,
    timeout_ticks: u32,
)
    requires
        !threshold.le(Real { bits: ZERO }),
        !threshold.lt(mismatch),
    ensures
        monitor.next(Some(mismatch), threshold, timeout_ticks) == RudderFeedbackMonitor::new(),
{
}

/// Without a rudder sensor the monitor never changes.
pub proof fn no_sensor_no_alarm(
    monitor: RudderFeedbackMonitor,
    threshold: Real,
    timeout_ticks: u32,
)
    ensures
        monitor.next(None, threshold, timeout_ticks) == monitor,
        feedback_view(
            monitor.alarm_active,
            monitor.next(None, threshold, timeout_ticks).alarm_active,
            Seq::empty(),
            Seq::empty(),
        ).deltas == Seq::<crate::signalk::DeltaView>::empty(),
{
}

/// The plausibility check after a number of headings; each entry is a heading, its
/// jump and the largest plausible one.
pub open spec fn checked(
    check: HeadingPlausibility,
    headings: Seq<(Real, Real, Real)>,
) -> HeadingPlausibility
    decreases headings.len(),
{
    if headings.len() == 0 {
        check
    } else {
        let h = headings.last();
        checked(check, headings.drop_last()).next(h.0, h.1, h.2)
    }
}

/// A run of implausible headings is bridged with the last plausible one, until it is
/// as long as the limit: then the compass counts as failed.
pub proof fn compass_fails_after_run_of_glitches(
    check: HeadingPlausibility,
    last: Real,
    headings: Seq<(Real, Real, Real)>,
    h: Real,
    jump: Real,
    max_jump: Real,
)
    requires
        check.prev_value == Some(last),
        check.glitch_count == 0,
        headings.len() < u32::MAX,
        forall|i: int|
            0 <= i < headings.len() ==> !(#[trigger] headings[i]).1.le(headings[i].2),
        !jump.le(max_jump),
    ensures
        checked(check, headings) == (HeadingPlausibility {
            glitch_count: headings.len() as u32,
            ..check
        }),
        checked(check, headings).verdict(h, jump, max_jump) == (if headings.len() + 1
            >= check.max_consecutive_glitches {
            PlausibilityResult::SensorFailure
        } else {
            PlausibilityResult::Glitch(last)
        }),
    decreases headings.len(),
{
    if headings.len() > 0 {
        let before = headings.drop_last();
        assert(headings.last() == headings[headings.len() - 1]);
        assert forall|i: int| 0 <= i < before.len() implies !(#[trigger] before[i]).1.le(
            before[i].2,
        ) by {
            assert(before[i] == headings[i]);
        }
        compass_fails_after_run_of_glitches(check, last, before, h, jump, max_jump);
    }
}

/// A plausible heading ends a run of glitches.
pub proof fn plausible_heading_ends_glitch(
    check: HeadingPlausibility,
    h: Real,
    jump: Real,
    max_jump: Real,
)
    requires
        jump.le(max_jump),
    ensures
        check.verdict(h, jump, max_jump) == PlausibilityResult::Plausible(h),
        check.next(h, jump, max_jump).glitch_count == 0,
        check.next(h, jump, max_jump).prev_value == Some(h),
{
}

/// Recovery after a number of ticks, each with its error.
pub open spec fn recovering(
    state: RecoveryState,
    errors: Seq<Real>,
    threshold: Real,
    exit_below: Real,
    max_ticks: u32,
) -> RecoveryState
    decreases errors.len(),
{
    if errors.len() == 0 {
        state
    } else {
        recovering(state, errors.drop_last(), threshold, exit_below, max_ticks).next(
            errors.last(),
            threshold,
            exit_below,
            max_ticks,
        )
    }
}

/// Recovery is bounded: once active it loses one tick each time, so it cannot stay on
/// for as many ticks as it has left.
pub proof fn recovery_is_bounded(
    state: RecoveryState,
    errors: Seq<Real>,
    threshold: Real,
    exit_below: Real,
    max_ticks: u32,
)
    requires
        state.active,
        !threshold.le(Real { bits: ZERO }),
        forall|n: int|
            0 <= n <= errors.len() ==> #[trigger] recovering(
                state,
                errors.take(n),
                threshold,
                exit_below,
                max_ticks,
            ).active,
    ensures
        errors.len() == 0 || errors.len() < state.ticks_remaining,
        errors.len() > 0 ==> recovering(
            state,
            errors,
            threshold,
            exit_below,
            max_ticks,
        ).ticks_remaining == state.ticks_remaining - errors.len(),
    decreases errors.len(),
{
    if errors.len() > 0 {
        let before = errors.drop_last();
        assert forall|n: int| 0 <= n <= before.len() implies #[trigger] recovering(
            state,
            before.take(n),
            threshold,
            exit_below,
            max_ticks,
        ).active by {
            assert(before.take(n) =~= errors.take(n));
        }
        recovery_is_bounded(state, before, threshold, exit_below, max_ticks);
        assert(errors.take(errors.len() as int) =~= errors);
        assert(errors.take(errors.len() - 1) =~= before);
        assert(recovering(state, errors.take(errors.len() - 1), threshold, exit_below, max_ticks)
            .active);
        assert(recovering(
            state,
            errors.take(errors.len() as int),
            threshold,
            exit_below,
            max_ticks,
        ).active);
    }
}

/// Unusable inputs give no rudder and leave the integral alone, whatever the gains.
pub proof fn unusable_inputs_are_harmless(
    pid: PidController,
    error: Real,
    d_error: Real,
    dt: Real,
    cfg: PidConfig,
)
    requires
        error.nan() || d_error.nan() || dt.nan() || dt.le(Real { bits: ZERO }),
    ensures
        pid.step(error, d_error, dt, cfg).output == lit(ZERO),
        pid.step(error, d_error, dt, cfg).integral == num(pid.integral),
{
}

/// Within the dead zone the rudder stays amidships.
pub proof fn dead_zone_keeps_rudder_amidships(
    pid: PidController,
    error: Real,
    d_error: Real,
    dt: Real,
    cfg: PidConfig,
)
    requires
        error.unsigned().lt(cfg.dead_zone_rad),
    ensures
        pid.step(error, d_error, dt, cfg).output == lit(ZERO),
{
}

/// After the autopilot has disengaged itself, the next tick steers nothing: it sees a
/// disabled autopilot.
pub proof fn disengaged_stays_off(state: StateView, timeout_secs: u64, now: u64)
    ensures
        !snapshot_view(disengaged(state), timeout_secs, now).enabled,
        snapshot_view(disengaged(state), timeout_secs, now).last_rudder == (Real { bits: ZERO }),
{
}

/// Entering a mode twice is entering it once, and leaving it and coming back clears
/// everything that was learnt.
pub proof fn mode_change_starts_afresh(
    control: ControlLoop,
    mode: AutopilotMode,
    other: AutopilotMode,
)
    requires
        mode != other,
    ensures
        control.for_mode(mode).for_mode(mode) == control.for_mode(mode),
        control.for_mode(mode).for_mode(other).for_mode(mode).pid.integral == (Real {
            bits: ZERO,
        }),
        control.for_mode(mode).for_mode(other).for_mode(mode).rudder_feedback
            == RudderFeedbackMonitor::new(),
        control.for_mode(mode).for_mode(other).for_mode(mode).heading_plausibility.prev_value
            is None,
        control.for_mode(mode).for_mode(other).for_mode(mode).recovery == RecoveryState::new(),
{
}

} // verus!
