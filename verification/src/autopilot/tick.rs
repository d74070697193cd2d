//! One tick of the control loop.
//!
//! A tick takes these steps, each with the values of the formulas that the step
//! before it handed out:
//!
//! 1. [`begin_tick`] reports the state, resets the loop when the mode has
//!    changed and disengages when the sensor has timed out;
//! 2. [`check_heading`] discards implausible headings and disengages when there
//!    are too many of them;
//! 3. [`recovery_plan`] and [`control_plan`] adapt the gains and work out the
//!    steering error;
//! 4. [`rudder_plan`] works out the rudder command;
//! 5. [`finish_tick`] stores the results, sends the command and watches the rudder.
use crate::autopilot::filter::{valid_alpha, CircularFilter, RateDetector};
use crate::autopilot::modes::{
    angle_error, heading, heading_view, route, route_view, wind, wind_view, ErrorFormulas,
    RouteInput,
};
use crate::autopilot::pd::{
    gains_of, limited, max_jump, plain_gains, plausible_yaw_rate, quality, rate_limit,
    recovery_exit, rudder_mismatch, scale_gains, scaled_gains, sensor_quality, validate_yaw_rate,
    Gains, HeadingPlausibility, PidConfig, PidController, PlausibilityResult, RecoveryState,
    RudderFeedbackMonitor,
};
use crate::autopilot::state::{since, AutopilotConfig, AutopilotMode, AutopilotState, StateView};
use crate::expr::{lit, num, Expr};
use crate::number::Real;
use crate::signalk::{
    field_views, no_values, notification, notification_view, object, plugin_source, push,
    push_field, self_delta_view, text, with, with_opt, Delta, DeltaView, Entry, Field,
    FieldView, NotificationMethod, NotificationState, Source, Value, ValueView,
};
use crate::text::join;
use crate::units::{ONE, ZERO};
use vstd::prelude::*;
use vstd::string::*;

verus! {

/// Smoothing factor of the gust detector: 0.5.
pub const GUST_ALPHA: u64 = 0x3FE0_0000_0000_0000;

/// Shortest time between two ticks that is reckoned with, in seconds: 0.001.
pub const MIN_DT: u64 = 0x3F50_624D_D2F1_A9FC;

/// Lowest rate, in hertz, that is reckoned with: 0.1.
pub const MIN_RATE_HZ: u64 = 0x3FB9_9999_9999_999A;

/// Nanoseconds in a second: 1e9.
pub const NANOS_PER_SEC: u64 = 0x41CD_CD65_0000_0000;

/// Positive infinity.
pub const INFINITY: u64 = 0x7FF0_0000_0000_0000;

/// A duration in seconds: the whole seconds and the rest apart.
#[verifier::allow_in_spec]
pub fn seconds(nanos: u64) -> (r: Expr)
    returns
        Expr::Uint(nanos / 1_000_000_000).plus(
            Expr::Uint(nanos % 1_000_000_000).over(lit(NANOS_PER_SEC)),
        ),
{
    Expr::Uint(nanos / 1_000_000_000).plus(
        Expr::Uint(nanos % 1_000_000_000).over(lit(NANOS_PER_SEC)),
    )
}

/// Seconds between two control ticks.
#[verifier::allow_in_spec]
pub fn control_interval(control_rate_hz: Real) -> (r: Expr)
    returns
        lit(ONE).over(num(control_rate_hz).max(lit(MIN_RATE_HZ))),
{
    lit(ONE).over(num(control_rate_hz).max(lit(MIN_RATE_HZ)))
}

/// Every how many ticks the state is reported.
#[verifier::allow_in_spec]
pub fn output_every(control_rate_hz: Real, output_rate_hz: Real) -> (r: Expr)
    returns
        num(control_rate_hz).over(num(output_rate_hz).max(lit(MIN_RATE_HZ))).round().max(
            lit(ONE),
        ),
{
    num(control_rate_hz).over(num(output_rate_hz).max(lit(MIN_RATE_HZ))).round().max(lit(ONE))
}

// ---------------------------------------------------------------------------
// Loop state
// ---------------------------------------------------------------------------

/// What the control loop carries from tick to tick.
#[derive(Debug, Clone, Copy, PartialEq, Eq, Structural)]
pub struct ControlLoop {
    pub pid: PidController,
    pub wind_filter: CircularFilter,
    pub recovery: RecoveryState,
    pub gust_detector: RateDetector,
    pub rudder_feedback: RudderFeedbackMonitor,
    pub heading_plausibility: HeadingPlausibility,
    pub prev_mode: Option<AutopilotMode>,
    pub tick_counter: u64,
}

impl ControlLoop {
    pub fn new(cfg: &AutopilotConfig) -> (r: Self)
        requires
            valid_alpha(cfg.wind_filter_alpha),
        ensures
            r.pid == (PidController {
                integral: Real { bits: ZERO },
                integral_limit: cfg.integral_limit,
            }),
            r.wind_filter.sin_filter.value is None,
            r.wind_filter.sin_filter.alpha == cfg.wind_filter_alpha,
            r.wind_filter.cos_filter == r.wind_filter.sin_filter,
            r.recovery == RecoveryState::new(),
            r.gust_detector.prev_value is None,
            r.gust_detector.output_filter.value is None,
            r.gust_detector.output_filter.alpha == (Real { bits: GUST_ALPHA }),
            r.rudder_feedback == RudderFeedbackMonitor::new(),
            r.heading_plausibility == (HeadingPlausibility {
                prev_value: None,
                glitch_count: 0,
                max_consecutive_glitches: cfg.heading_glitch_max_count,
            }),
            r.prev_mode is None,
            r.tick_counter == 0,
    {
        ControlLoop {
            pid: PidController::new(cfg.integral_limit),
            wind_filter: CircularFilter::new(cfg.wind_filter_alpha),
            recovery: RecoveryState::new(),
            gust_detector: RateDetector::new(Real { bits: GUST_ALPHA }),
            rudder_feedback: RudderFeedbackMonitor::new(),
            heading_plausibility: HeadingPlausibility::new(cfg.heading_glitch_max_count),
            prev_mode: None,
            tick_counter: 0,
        }
    }

    /// The loop at the start of a tick in the given mode: everything starts afresh when
    /// the mode has changed.
    pub open spec fn for_mode(self, mode: AutopilotMode) -> ControlLoop {
        if self.prev_mode == Some(mode) {
            self
        } else {
            ControlLoop {
                pid: PidController { integral: Real { bits: ZERO }, ..self.pid },
                wind_filter: self.wind_filter.cleared(),
                recovery: RecoveryState::new(),
                gust_detector: self.gust_detector.cleared(),
                rudder_feedback: RudderFeedbackMonitor::new(),
                heading_plausibility: self.heading_plausibility.cleared(),
                prev_mode: Some(mode),
                ..self
            }
        }
    }

    /// The loop after the autopilot has disengaged itself.
    pub open spec fn halted(self) -> ControlLoop {
        ControlLoop {
            pid: PidController { integral: Real { bits: ZERO }, ..self.pid },
            recovery: RecoveryState::new(),
            rudder_feedback: RudderFeedbackMonitor::new(),
            heading_plausibility: self.heading_plausibility.cleared(),
            ..self
        }
    }

    fn enter_mode(&mut self, mode: AutopilotMode)
        ensures
            *final(self) == old(self).for_mode(mode),
    {
        let same = match self.prev_mode {
            Some(m) => m == mode,
            None => false,
        };
        if !same {
            self.pid.reset();
            self.wind_filter.reset();
            self.recovery.reset();
            self.gust_detector.reset();
            self.rudder_feedback.reset();
            self.heading_plausibility.reset();
            self.prev_mode = Some(mode);
        }
    }

    fn halt(&mut self)
        ensures
            *final(self) == old(self).halted(),
    {
        self.pid.reset();
        self.recovery.reset();
        self.rudder_feedback.reset();
        self.heading_plausibility.reset();
    }
}

/// The state after the autopilot has disengaged itself.
pub open spec fn disengaged(state: StateView) -> StateView {
    StateView {
        enabled: false,
        last_rudder_rad: Real { bits: ZERO },
        last_tick_at: None,
        ..state
    }
}

fn disengage_now(state: &mut AutopilotState)
    ensures
        final(state)@ == disengaged(old(state)@),
{
    state.enabled = false;
    state.last_rudder_rad = Real { bits: ZERO };
    state.last_tick_at = None;
}

// ---------------------------------------------------------------------------
// Deltas
// ---------------------------------------------------------------------------

/// The delta of a rudder command.
pub open spec fn rudder_delta_view(rudder: Real) -> DeltaView {
    self_delta_view(
        plugin_source("autopilot"@),
        with(Seq::empty(), "steering.rudderAngle"@, ValueView::Number(num(rudder))),
    )
}

/// The delta of a rudder command.
pub fn rudder_delta(rudder: Real) -> (r: Delta)
    ensures
        r@ == rudder_delta_view(rudder),
{
    let mut values = no_values();
    push(&mut values, "steering.rudderAngle", Value::Number(num(rudder)));
    Delta::self_vessel(Source::plugin("autopilot"), values)
}

/// The actions that are available: dodging while engaged, tacking and gybing while
/// engaged in a wind mode.
pub open spec fn actions_view(engaged: bool, mode: AutopilotMode) -> ValueView {
    ValueView::Object(
        seq![
            FieldView { key: "dodge"@, value: ValueView::Bool(engaged) },
            FieldView { key: "tack"@, value: ValueView::Bool(engaged && mode.is_wind()) },
            FieldView { key: "gybe"@, value: ValueView::Bool(engaged && mode.is_wind()) },
        ],
    )
}

fn actions(engaged: bool, mode: AutopilotMode) -> (v: Value)
    ensures
        v@ == actions_view(engaged, mode),
{
    let mut fields: Vec<Field> = Vec::new();
    assert(field_views(fields@) =~= Seq::empty());
    push_field(&mut fields, "dodge", Value::Bool(engaged));
    push_field(&mut fields, "tack", Value::Bool(engaged && mode.is_wind()));
    push_field(&mut fields, "gybe", Value::Bool(engaged && mode.is_wind()));
    let v = object(fields);
    assert(v@->Object_0 =~= actions_view(engaged, mode)->Object_0);
    v
}

/// What is reported of the autopilot's state.
pub open spec fn state_entries(
    engaged: bool,
    mode: AutopilotMode,
    target: Option<Real>,
) -> Seq<Entry> {
    let s = with(
        Seq::empty(),
        "steering.autopilot.state"@,
        ValueView::Text(AutopilotState::state_name(engaged)),
    );
    let s = with(s, "steering.autopilot.mode"@, ValueView::Text(mode.name()));
    let s = with(s, "steering.autopilot.engaged"@, ValueView::Bool(engaged));
    let s = with_opt(
        s,
        mode.target(),
        match target {
            Some(t) => Some(ValueView::Number(num(t))),
            None => None,
        },
    );
    with(s, "steering.autopilot.actions"@, actions_view(engaged, mode))
}

/// The delta that reports the autopilot's state.
pub open spec fn state_delta_view(
    engaged: bool,
    mode: AutopilotMode,
    target: Option<Real>,
) -> DeltaView {
    self_delta_view(plugin_source("autopilot"@), state_entries(engaged, mode, target))
}

/// The delta that reports the autopilot's state.
pub fn state_delta(engaged: bool, mode: AutopilotMode, target: Option<Real>) -> (r: Delta)
    ensures
        r@ == state_delta_view(engaged, mode, target),
{
    let mut values = no_values();
    if engaged {
        push(&mut values, "steering.autopilot.state", text("enabled"));
    } else {
        push(&mut values, "steering.autopilot.state", text("disabled"));
    }
    push(&mut values, "steering.autopilot.mode", text(mode.as_str()));
    push(&mut values, "steering.autopilot.engaged", Value::Bool(engaged));
    if let Some(t) = target {
        push(&mut values, mode.target_path(), Value::Number(num(t)));
    }
    push(&mut values, "steering.autopilot.actions", actions(engaged, mode));
    Delta::self_vessel(Source::plugin("autopilot"), values)
}

/// The delta of a notification, which is only shown.
pub open spec fn notification_delta_view(
    path: Seq<char>,
    state: NotificationState,
    message: Seq<char>,
) -> DeltaView {
    self_delta_view(
        plugin_source("autopilot"@),
        with(
            Seq::empty(),
            "notifications."@ + path,
            notification_view(state, seq![NotificationMethod::Visual], message),
        ),
    )
}

/// The delta of a notification, which is only shown.
pub fn notification_delta(path: &str, state: NotificationState, message: &str) -> (r: Delta)
    ensures
        r@ == notification_delta_view(path@, state, message@),
{
    let mut methods: Vec<NotificationMethod> = Vec::new();
    methods.push(NotificationMethod::Visual);
    assert(methods@ =~= seq![NotificationMethod::Visual]);
    let mut values = no_values();
    push(
        &mut values,
        join("notifications.", path).as_str(),
        notification(state, &methods, message),
    );
    Delta::self_vessel(Source::plugin("autopilot"), values)
}

/// The views of a list of deltas.
pub open spec fn delta_views(deltas: Seq<Delta>) -> Seq<DeltaView> {
    deltas.map_values(|d: Delta| d@)
}

fn push_delta(deltas: &mut Vec<Delta>, delta: Delta)
    ensures
        delta_views(final(deltas)@) == delta_views(old(deltas)@).push(delta@),
{
    deltas.push(delta);
    assert(delta_views(deltas@) =~= delta_views(old(deltas)@).push(delta@));
}

// ---------------------------------------------------------------------------
// Snapshot
// ---------------------------------------------------------------------------

/// The part of the state that a tick works on.
#[derive(Debug, Clone, Copy, PartialEq, Eq, Structural)]
pub struct Snapshot {
    pub enabled: bool,
    pub mode: AutopilotMode,
    pub target: Option<Real>,
    pub dodge: Option<Real>,
    /// Value of the mode's sensor.
    pub primary_sensor: Option<Real>,
    pub timed_out: bool,
    pub prev_error: Real,
    pub last_tick: Option<u64>,
    pub last_rudder: Real,
    /// Magnetic heading, or the true one where there is none.
    pub heading: Option<Real>,
    pub xte: Option<Real>,
    pub yaw_rate: Option<Real>,
    /// Speed through the water, or over ground where there is none.
    pub speed: Option<Real>,
    pub heel: Option<Real>,
    pub wind_speed: Option<Real>,
    pub actual_rudder: Option<Real>,
    /// Nanoseconds since the heading was received.
    pub heading_age: Option<u64>,
}

/// The first of two readings that is there.
#[verifier::allow_in_spec]
pub fn either(first: Option<Real>, second: Option<Real>) -> (r: Option<Real>)
    returns
        (match first {
            Some(x) => Some(x),
            None => second,
        }),
{
    match first {
        Some(x) => Some(x),
        None => second,
    }
}

/// How long ago the first of two moments that is there was.
#[verifier::allow_in_spec]
pub fn age_of(first: Option<u64>, second: Option<u64>, now: u64) -> (r: Option<u64>)
    returns
        (match (first, second) {
            (Some(t), _) => Some(since(t, now)),
            (None, Some(t)) => Some(since(t, now)),
            (None, None) => None,
        }),
{
    match (first, second) {
        (Some(t), _) => Some(since(t, now)),
        (None, Some(t)) => Some(since(t, now)),
        (None, None) => None,
    }
}

/// The part of the state that a tick works on.
pub open spec fn snapshot_view(state: StateView, timeout_secs: u64, now: u64) -> Snapshot {
    Snapshot {
        enabled: state.enabled,
        mode: state.mode,
        target: state.target_rad,
        dodge: state.dodge_offset_rad,
        primary_sensor: state.value_of(state.mode.sensor()),
        timed_out: state.timed_out(timeout_secs, now),
        prev_error: state.last_error_rad,
        last_tick: state.last_tick_at,
        last_rudder: state.last_rudder_rad,
        heading: either(
            state.value_of("navigation.headingMagnetic"@),
            state.value_of("navigation.headingTrue"@),
        ),
        xte: state.value_of("navigation.crossTrackError"@),
        yaw_rate: state.value_of("navigation.rateOfTurn"@),
        speed: either(
            state.value_of("navigation.speedThroughWater"@),
            state.value_of("navigation.speedOverGround"@),
        ),
        heel: state.value_of("navigation.attitude.roll"@),
        wind_speed: state.value_of("environment.wind.speedApparent"@),
        actual_rudder: state.actual_rudder_rad,
        heading_age: age_of(
            state.heard("navigation.headingMagnetic"@),
            state.heard("navigation.headingTrue"@),
            now,
        ),
    }
}

/// Takes the snapshot of the state.
pub fn take_snapshot(state: &AutopilotState, timeout_secs: u64, now: u64) -> (r: Snapshot)
    ensures
        r == snapshot_view(state@, timeout_secs, now),
{
    Snapshot {
        enabled: state.enabled,
        mode: state.mode,
        target: state.target_rad,
        dodge: state.dodge_offset_rad,
        primary_sensor: state.current_sensor(),
        timed_out: state.sensor_timed_out(timeout_secs, now),
        prev_error: state.last_error_rad,
        last_tick: state.last_tick_at,
        last_rudder: state.last_rudder_rad,
        heading: either(
            state.sensor("navigation.headingMagnetic"),
            state.sensor("navigation.headingTrue"),
        ),
        xte: state.sensor("navigation.crossTrackError"),
        yaw_rate: state.sensor("navigation.rateOfTurn"),
        speed: either(
            state.sensor("navigation.speedThroughWater"),
            state.sensor("navigation.speedOverGround"),
        ),
        heel: state.sensor("navigation.attitude.roll"),
        wind_speed: state.sensor("environment.wind.speedApparent"),
        actual_rudder: state.actual_rudder_rad,
        heading_age: age_of(
            state.last_heard("navigation.headingMagnetic"),
            state.last_heard("navigation.headingTrue"),
            now,
        ),
    }
}

// ---------------------------------------------------------------------------
// First step
// ---------------------------------------------------------------------------

/// What the first step hands out to be evaluated.
#[derive(Debug, PartialEq)]
pub struct SteerPlan {
    pub snap: Snapshot,
    /// The command is to be sent in this tick.
    pub emit: bool,
    /// Seconds since the last tick.
    pub dt: Expr,
    /// The target with the temporary offset.
    pub effective_target: Expr,
    /// The jump of the heading, where there is one.
    pub jump: Option<Expr>,
    /// The largest plausible jump.
    pub max_jump: Expr,
    /// Seconds since the heading was received.
    pub heading_age: Expr,
}

/// Seconds since the last tick; the nominal interval where there was none.
#[verifier::allow_in_spec]
pub fn tick_duration(last_tick: Option<u64>, now: u64, control_rate_hz: Real) -> (r: Expr)
    returns
        (match last_tick {
            Some(t) => seconds(since(t, now)).max(lit(MIN_DT)),
            None => lit(ONE).over(num(control_rate_hz)),
        }),
{
    match last_tick {
        Some(t) => seconds(since(t, now)).max(lit(MIN_DT)),
        None => lit(ONE).over(num(control_rate_hz)),
    }
}

/// The target with the temporary offset.
#[verifier::allow_in_spec]
pub fn dodged_target(target: Real, dodge: Option<Real>) -> (r: Expr)
    returns
        (match dodge {
            Some(d) => num(target).plus(num(d)),
            None => num(target).plus(lit(ZERO)),
        }),
{
    match dodge {
        Some(d) => num(target).plus(num(d)),
        None => num(target).plus(lit(ZERO)),
    }
}

/// The age of the heading in seconds, infinite where there is none.
#[verifier::allow_in_spec]
pub fn age_seconds(age: Option<u64>) -> (r: Expr)
    returns
        (match age {
            Some(n) => seconds(n),
            None => lit(INFINITY),
        }),
{
    match age {
        Some(n) => seconds(n),
        None => lit(INFINITY),
    }
}

/// The plan of a tick that steers.
pub open spec fn steer_plan(
    control: ControlLoop,
    snap: Snapshot,
    target: Real,
    emit: bool,
    cfg: AutopilotConfig,
    now: u64,
) -> SteerPlan {
    let dt = tick_duration(snap.last_tick, now, cfg.control_rate_hz);
    SteerPlan {
        snap,
        emit,
        dt,
        effective_target: dodged_target(target, snap.dodge),
        jump: match snap.heading {
            Some(h) => control.heading_plausibility.jump_view(h),
            None => None,
        },
        max_jump: max_jump(cfg.max_heading_rate_rad_per_sec, dt),
        heading_age: age_seconds(snap.heading_age),
    }
}

/// What comes out of a step: deltas to send, a status line where it changes.
#[derive(Debug)]
pub struct StepOutput {
    pub deltas: Vec<Delta>,
    pub status: Option<&'static str>,
}

/// The view of a [`StepOutput`].
pub struct StepView {
    pub deltas: Seq<DeltaView>,
    pub status: Option<Seq<char>>,
}

impl StepOutput {
    pub open spec fn view(&self) -> StepView {
        StepView {
            deltas: delta_views(self.deltas@),
            status: match self.status {
                Some(s) => Some(s@),
                None => None,
            },
        }
    }
}

/// The tick is one in which the state is reported.
pub open spec fn reports(tick: u64, every: u64) -> bool {
    if every == 0 {
        tick == 0
    } else {
        tick % every == 0
    }
}

/// The report of a tick, if it is one in which the state is reported.
pub open spec fn report(snap: Snapshot, emit: bool) -> Seq<DeltaView> {
    if emit {
        seq![state_delta_view(snap.enabled, snap.mode, snap.target)]
    } else {
        Seq::empty()
    }
}

/// What a sensor timeout sends: the rudder amidships and an alarm.
pub open spec fn timeout_view(snap: Snapshot, emit: bool) -> StepView {
    StepView {
        deltas: report(snap, emit).push(rudder_delta_view(Real { bits: ZERO })).push(
            notification_delta_view(
                "steering.autopilot.dataTimeout"@,
                NotificationState::Alarm,
                "Autopilot sensor timeout ("@ + snap.mode.name() + " mode)"@,
            ),
        ),
        status: Some("Sensor timeout — disengaged"@),
    }
}

/// The first step of a tick.
pub fn begin_tick(
    control: &mut ControlLoop,
    state: &mut AutopilotState,
    cfg: &AutopilotConfig,
    output_every_n: u64,
    now: u64,
) -> (r: (StepOutput, Option<SteerPlan>))
    requires
        old(control).tick_counter < u64::MAX,
    ensures
        ({
            let snap = snapshot_view(old(state)@, cfg.sensor_timeout_secs, now);
            let tick = (old(control).tick_counter + 1) as u64;
            let emit = reports(tick, output_every_n);
            let counted = ControlLoop { tick_counter: tick, ..*old(control) };
            let entered = counted.for_mode(snap.mode);
            let quiet = StepView { deltas: report(snap, emit), status: None };
            if !snap.enabled {
                &&& *final(control) == counted
                &&& final(state)@ == old(state)@
                &&& r.0@ == quiet
                &&& r.1 is None
            } else if snap.timed_out {
                &&& *final(control) == entered.halted()
                &&& final(state)@ == disengaged(old(state)@)
                &&& r.0@ == timeout_view(snap, emit)
                &&& r.1 is None
            } else {
                &&& *final(control) == entered
                &&& final(state)@ == old(state)@
                &&& r.0@ == quiet
                &&& r.1 == (match snap.target {
                    Some(t) => Some(steer_plan(entered, snap, t, emit, *cfg, now)),
                    None => None,
                })
            }
        }),
{
    control.tick_counter = control.tick_counter + 1;
    let emit = if output_every_n == 0 {
        control.tick_counter == 0
    } else {
        control.tick_counter % output_every_n == 0
    };
    let snap = take_snapshot(state, cfg.sensor_timeout_secs, now);
    let mut deltas: Vec<Delta> = Vec::new();
    assert(delta_views(deltas@) =~= Seq::empty());
    if emit {
        push_delta(&mut deltas, state_delta(snap.enabled, snap.mode, snap.target));
    }
    assert(delta_views(deltas@) =~= report(snap, emit));
    if !snap.enabled {
        return (StepOutput { deltas, status: None }, None);
    }
    control.enter_mode(snap.mode);
    if snap.timed_out {
        disengage_now(state);
        control.halt();
        push_delta(&mut deltas, rudder_delta(Real { bits: ZERO }));
        let mut message = join("Autopilot sensor timeout (", snap.mode.as_str());
        message.append(" mode)");
        push_delta(
            &mut deltas,
            notification_delta(
                "steering.autopilot.dataTimeout",
                NotificationState::Alarm,
                message.as_str(),
            ),
        );
        return (
            StepOutput { deltas, status: Some("Sensor timeout — disengaged") },
            None,
        );
    }
    let target = match snap.target {
        Some(t) => t,
        None => {
            return (StepOutput { deltas, status: None }, None);
        },
    };
    let jump = match snap.heading {
        Some(h) => control.heading_plausibility.jump(h),
        None => None,
    };
    let plan = SteerPlan {
        snap,
        emit,
        dt: tick_duration(snap.last_tick, now, cfg.control_rate_hz),
        effective_target: dodged_target(target, snap.dodge),
        jump,
        max_jump: max_jump(
            cfg.max_heading_rate_rad_per_sec,
            tick_duration(snap.last_tick, now, cfg.control_rate_hz),
        ),
        heading_age: age_seconds(snap.heading_age),
    };
    (StepOutput { deltas, status: None }, Some(plan))
}

// ---------------------------------------------------------------------------
// Second step
// ---------------------------------------------------------------------------

/// The heading to steer by.
#[derive(Debug)]
pub enum HeadingStep {
    /// The checked heading, or none where there is no compass.
    Steer(Option<Real>),
    /// The compass has failed; the autopilot has disengaged.
    Failed(StepOutput),
}

/// What a compass failure sends: the rudder amidships and an alarm.
pub open spec fn compass_failure_view() -> StepView {
    StepView {
        deltas: seq![
            rudder_delta_view(Real { bits: ZERO }),
            notification_delta_view(
                "steering.autopilot.heading"@,
                NotificationState::Alarm,
                "Heading sensor glitch — autopilot disengaged"@,
            ),
        ],
        status: Some("Heading sensor failure — disengaged"@),
    }
}

/// Checks the heading. `jump` and `max_jump` are the values of the plan's formulas;
/// the jump does not matter where the plan has none.
pub fn check_heading(
    control: &mut ControlLoop,
    state: &mut AutopilotState,
    snap: &Snapshot,
    jump: Real,
    max_jump: Real,
) -> (r: HeadingStep)
    requires
        snap.heading is Some && old(control).heading_plausibility.glitches(jump, max_jump)
            ==> old(control).heading_plausibility.glitch_count < u32::MAX,
    ensures
        match snap.heading {
            None => {
                &&& *final(control) == *old(control)
                &&& final(state)@ == old(state)@
                &&& r == HeadingStep::Steer(None)
            },
            Some(h) => {
                let before = old(control).heading_plausibility;
                let checked = ControlLoop {
                    heading_plausibility: before.next(h, jump, max_jump),
                    ..*old(control)
                };
                match before.verdict(h, jump, max_jump) {
                    PlausibilityResult::Plausible(v) => {
                        &&& *final(control) == checked
                        &&& final(state)@ == old(state)@
                        &&& r == HeadingStep::Steer(Some(v))
                    },
                    PlausibilityResult::Glitch(prev) => {
                        &&& *final(control) == checked
                        &&& final(state)@ == old(state)@
                        &&& r == HeadingStep::Steer(Some(prev))
                    },
                    PlausibilityResult::SensorFailure => {
                        &&& *final(control) == checked.halted()
                        &&& final(state)@ == disengaged(old(state)@)
                        &&& r matches HeadingStep::Failed(out) && out@ == compass_failure_view()
                    },
                }
            },
        },
{
    let h = match snap.heading {
        Some(h) => h,
        None => {
            return HeadingStep::Steer(None);
        },
    };
    match control.heading_plausibility.check(h, jump, max_jump) {
        PlausibilityResult::Plausible(v) => HeadingStep::Steer(Some(v)),
        PlausibilityResult::Glitch(prev) => HeadingStep::Steer(Some(prev)),
        PlausibilityResult::SensorFailure => {
            disengage_now(state);
            control.halt();
            let mut deltas: Vec<Delta> = Vec::new();
            assert(delta_views(deltas@) =~= Seq::empty());
            push_delta(&mut deltas, rudder_delta(Real { bits: ZERO }));
            push_delta(
                &mut deltas,
                notification_delta(
                    "steering.autopilot.heading",
                    NotificationState::Alarm,
                    "Heading sensor glitch — autopilot disengaged",
                ),
            );
            assert(delta_views(deltas@) =~= compass_failure_view().deltas);
            HeadingStep::Failed(
                StepOutput { deltas, status: Some("Heading sensor failure — disengaged") },
            )
        },
    }
}

// ---------------------------------------------------------------------------
// Third step
// ---------------------------------------------------------------------------

/// The error that recovery is decided by: of the heading in compass mode, else of
/// the mode's sensor.
pub open spec fn recovery_error(
    snap: Snapshot,
    heading: Option<Real>,
    effective_target: Real,
) -> Option<Expr> {
    let current = if snap.mode is Compass {
        heading
    } else {
        snap.primary_sensor
    };
    match current {
        Some(c) => Some(angle_error(num(effective_target), num(c))),
        None => None,
    }
}

/// The formulas of the error that recovery is decided by and of the error below which
/// it ends.
pub fn recovery_plan(
    snap: &Snapshot,
    heading: Option<Real>,
    effective_target: Real,
    cfg: &AutopilotConfig,
) -> (r: (Option<Expr>, Expr))
    ensures
        r == (
            recovery_error(*snap, heading, effective_target),
            recovery_exit(cfg.recovery_threshold_rad),
        ),
{
    let current = match snap.mode {
        AutopilotMode::Compass => heading,
        _ => snap.primary_sensor,
    };
    let error = match current {
        Some(c) => Some(angle_error(num(effective_target), num(c))),
        None => None,
    };
    (error, recovery_exit(cfg.recovery_threshold_rad))
}

/// The gains for the vessel's speed, with the D gain weighted by the heading's age.
pub open spec fn weighted_gains(
    cfg: AutopilotConfig,
    speed: Option<Real>,
    heading_age: Real,
) -> Gains {
    let base = match speed {
        Some(s) => scaled_gains(cfg.tuning(), s, cfg.speed_nominal_mps),
        None => plain_gains(cfg.tuning()),
    };
    if (Real { bits: ZERO }).lt(cfg.dterm_quality_half_life_secs) {
        Gains {
            gain_d: base.gain_d.times(
                quality(heading_age, cfg.dterm_quality_half_life_secs),
            ),
            ..base
        }
    } else {
        base
    }
}

fn weigh_gains(cfg: &AutopilotConfig, speed: Option<Real>, heading_age: Real) -> (r: Gains)
    ensures
        r == weighted_gains(*cfg, speed, heading_age),
{
    let tuning = cfg.pid_config();
    let base = match speed {
        Some(s) => scale_gains(&tuning, s, cfg.speed_nominal_mps),
        None => gains_of(&tuning),
    };
    let zero = Real { bits: ZERO };
    if zero.less_than(cfg.dterm_quality_half_life_secs) {
        let Gains { gain_p, gain_i, gain_d } = base;
        Gains {
            gain_p,
            gain_i,
            gain_d: gain_d.times(sensor_quality(heading_age, cfg.dterm_quality_half_life_secs)),
        }
    } else {
        base
    }
}

/// What the third step hands out to be evaluated.
#[derive(Debug, PartialEq)]
pub struct ControlPlan {
    pub errors: ErrorFormulas,
    pub gains: Gains,
    /// The filtered sine and cosine of the wind angle, in wind modes.
    pub wind: Option<(Expr, Expr)>,
}

/// The values that the third step works on.
#[derive(Debug, Clone, Copy, PartialEq, Eq, Structural)]
pub struct SteerValues {
    /// The checked heading.
    pub heading: Option<Real>,
    /// Value of the plan's `effective_target`.
    pub effective_target: Real,
    /// Value of the plan's `dt`.
    pub dt: Real,
    /// Value of the plan's `heading_age`.
    pub heading_age: Real,
    /// Value of the error that recovery is decided by.
    pub recovery_error: Option<Real>,
    /// Value of the error below which recovery ends.
    pub recovery_exit: Real,
}

/// Recovery after this tick's error.
pub open spec fn recovered(
    recovery: RecoveryState,
    v: SteerValues,
    cfg: AutopilotConfig,
) -> RecoveryState {
    match v.recovery_error {
        Some(e) => recovery.next(
            e,
            cfg.recovery_threshold_rad,
            v.recovery_exit,
            cfg.recovery_max_ticks,
        ),
        None => recovery,
    }
}

/// What route mode steers by.
pub open spec fn route_input(
    snap: Snapshot,
    v: SteerValues,
    heading: Real,
    btw: Real,
    cfg: AutopilotConfig,
) -> RouteInput {
    RouteInput {
        current_heading: heading,
        btw,
        xte_m: match snap.xte {
            Some(x) => x,
            None => Real { bits: ZERO },
        },
        lookahead_m: cfg.route_lookahead_m,
        prev_error: snap.prev_error,
        dt: v.dt,
        yaw_rate: plausible_yaw_rate(snap.yaw_rate, cfg.max_yaw_rate_rad_per_sec),
    }
}

/// The steering error of the mode, where its sensors are there.
pub open spec fn mode_errors(
    filter: CircularFilter,
    snap: Snapshot,
    v: SteerValues,
    cfg: AutopilotConfig,
) -> Option<ErrorFormulas> {
    let yaw_rate = plausible_yaw_rate(snap.yaw_rate, cfg.max_yaw_rate_rad_per_sec);
    match snap.mode {
        AutopilotMode::Compass => match v.heading {
            Some(h) => Some(
                heading_view(h, v.effective_target, snap.prev_error, v.dt, yaw_rate),
            ),
            None => None,
        },
        AutopilotMode::Wind | AutopilotMode::WindTrue => match snap.primary_sensor {
            Some(raw) => Some(
                wind_view(filter, raw, v.effective_target, snap.prev_error, v.dt, yaw_rate),
            ),
            None => None,
        },
        AutopilotMode::Route => match (v.heading, snap.primary_sensor) {
            (Some(h), Some(btw)) => Some(route_view(route_input(snap, v, h, btw, cfg))),
            _ => None,
        },
    }
}

/// The filtered sine and cosine of the wind angle, in wind modes.
pub open spec fn mode_filter(filter: CircularFilter, snap: Snapshot) -> Option<(Expr, Expr)> {
    match snap.primary_sensor {
        Some(raw) => if snap.mode.is_wind() {
            Some((filter.next_sin(raw), filter.next_cos(raw)))
        } else {
            None
        },
        None => None,
    }
}

fn errors_for_mode(
    filter: &CircularFilter,
    snap: &Snapshot,
    v: &SteerValues,
    cfg: &AutopilotConfig,
) -> (r: Option<ErrorFormulas>)
    ensures
        r == mode_errors(*filter, *snap, *v, *cfg),
{
    let yaw_rate = validate_yaw_rate(snap.yaw_rate, cfg.max_yaw_rate_rad_per_sec);
    match snap.mode {
        AutopilotMode::Compass => match v.heading {
            Some(h) => Some(heading(h, v.effective_target, snap.prev_error, v.dt, yaw_rate)),
            None => None,
        },
        AutopilotMode::Wind | AutopilotMode::WindTrue => match snap.primary_sensor {
            Some(raw) => Some(
                wind(filter, raw, v.effective_target, snap.prev_error, v.dt, yaw_rate),
            ),
            None => None,
        },
        AutopilotMode::Route => match (v.heading, snap.primary_sensor) {
            (Some(h), Some(btw)) => {
                let xte_m = match snap.xte {
                    Some(x) => x,
                    None => Real { bits: ZERO },
                };
                Some(
                    route(
                        RouteInput {
                            current_heading: h,
                            btw,
                            xte_m,
                            lookahead_m: cfg.route_lookahead_m,
                            prev_error: snap.prev_error,
                            dt: v.dt,
                            yaw_rate,
                        },
                    ),
                )
            },
            _ => None,
        },
    }
}

/// Decides on recovery and works out gains and steering error. Without the mode's
/// sensors the tick ends here.
pub fn control_plan(
    control: &mut ControlLoop,
    snap: &Snapshot,
    v: &SteerValues,
    cfg: &AutopilotConfig,
) -> (r: Option<ControlPlan>)
    ensures
        *final(control) == (ControlLoop {
            recovery: recovered(old(control).recovery, *v, *cfg),
            ..*old(control)
        }),
        r == (match mode_errors(old(control).wind_filter, *snap, *v, *cfg) {
            Some(errors) => Some(
                ControlPlan {
                    errors,
                    gains: final(control).recovery.adjusted(
                        weighted_gains(*cfg, snap.speed, v.heading_age),
                        cfg.recovery_gain_factor,
                    ),
                    wind: mode_filter(old(control).wind_filter, *snap),
                },
            ),
            None => None,
        }),
{
    if let Some(e) = v.recovery_error {
        control.recovery.update(
            e,
            cfg.recovery_threshold_rad,
            v.recovery_exit,
            cfg.recovery_max_ticks,
        );
    }
    let errors = match errors_for_mode(&control.wind_filter, snap, v, cfg) {
        Some(errors) => errors,
        None => {
            return None;
        },
    };
    let gains = control.recovery.apply(
        weigh_gains(cfg, snap.speed, v.heading_age),
        cfg.recovery_gain_factor,
    );
    let wind = match snap.primary_sensor {
        Some(raw) => if snap.mode.is_wind() {
            Some(control.wind_filter.components(raw))
        } else {
            None
        },
        None => None,
    };
    Some(ControlPlan { errors, gains, wind })
}

// ---------------------------------------------------------------------------
// Fourth step
// ---------------------------------------------------------------------------

/// The values that the fourth step works on.
#[derive(Debug, Clone, Copy, PartialEq, Eq, Structural)]
pub struct ControlValues {
    pub error: Real,
    pub d_error: Real,
    pub gain_p: Real,
    pub gain_i: Real,
    pub gain_d: Real,
}

impl ControlValues {
    /// The controller's tuning with the gains of this tick.
    pub open spec fn tuning(self, cfg: AutopilotConfig) -> PidConfig {
        PidConfig {
            gain_p: self.gain_p,
            gain_i: self.gain_i,
            gain_d: self.gain_d,
            dead_zone_rad: cfg.dead_zone_rad,
            max_rudder_rad: cfg.max_rudder_rad,
        }
    }
}

/// What the fourth step hands out to be evaluated.
#[derive(Debug, PartialEq)]
pub struct RudderPlan {
    pub rudder: Expr,
    pub integral: Expr,
    /// The smoothed rate of change of the wind speed, where gusts are watched.
    pub gust_rate: Option<Expr>,
    /// The mismatch of commanded and measured rudder angle, where one is measured.
    pub mismatch: Option<Expr>,
}

/// The rudder that counters heel.
pub open spec fn heel_term(cfg: AutopilotConfig, heel: Option<Real>) -> Expr {
    match heel {
        Some(roll) => if !cfg.heel_gain.zero() {
            num(cfg.heel_gain).times(num(roll))
        } else {
            lit(ZERO)
        },
        None => lit(ZERO),
    }
}

/// The smoothed rate of change of the wind speed, where gusts are watched.
pub open spec fn gust_rate(
    detector: RateDetector,
    cfg: AutopilotConfig,
    wind_speed: Option<Real>,
    dt: Real,
) -> Option<Expr> {
    match wind_speed {
        Some(ws) => if !cfg.gust_gain.zero() {
            Some(detector.next(ws, dt))
        } else {
            None
        },
        None => None,
    }
}

/// The rudder that counters a gust: nothing up to the threshold.
pub open spec fn gust_term(cfg: AutopilotConfig, rate: Option<Expr>) -> Expr {
    match rate {
        Some(e) => num(cfg.gust_threshold_mps_per_sec).if_less(
            e.absolute(),
            num(cfg.gust_gain).times(e),
            lit(ZERO),
        ),
        None => lit(ZERO),
    }
}

/// The rudder command of a tick.
pub open spec fn rudder_command(
    control: ControlLoop,
    snap: Snapshot,
    cv: ControlValues,
    dt: Real,
    cfg: AutopilotConfig,
) -> Expr {
    let pid = control.pid.step(cv.error, cv.d_error, dt, cv.tuning(cfg));
    let gust = gust_term(cfg, gust_rate(control.gust_detector, cfg, snap.wind_speed, dt));
    limited(
        snap.last_rudder,
        pid.output.plus(heel_term(cfg, snap.heel)).plus(gust).clamped(
            num(cfg.max_rudder_rad).negated(),
            num(cfg.max_rudder_rad),
        ),
        cfg.max_rudder_rate_rad_per_sec,
        dt,
    )
}

fn command_formula(
    control: &ControlLoop,
    snap: &Snapshot,
    cv: &ControlValues,
    dt: Real,
    cfg: &AutopilotConfig,
) -> (r: Expr)
    ensures
        r == rudder_command(*control, *snap, *cv, dt, *cfg),
{
    let tuning = PidConfig {
        gain_p: cv.gain_p,
        gain_i: cv.gain_i,
        gain_d: cv.gain_d,
        dead_zone_rad: cfg.dead_zone_rad,
        max_rudder_rad: cfg.max_rudder_rad,
    };
    let pid = control.pid.compute(cv.error, cv.d_error, dt, &tuning);
    let heel = match snap.heel {
        Some(roll) => if !cfg.heel_gain.is_zero() {
            num(cfg.heel_gain).times(num(roll))
        } else {
            lit(ZERO)
        },
        None => lit(ZERO),
    };
    let gust = match snap.wind_speed {
        Some(ws) => if !cfg.gust_gain.is_zero() {
            num(cfg.gust_threshold_mps_per_sec).if_less(
                control.gust_detector.update(ws, dt).absolute(),
                num(cfg.gust_gain).times(control.gust_detector.update(ws, dt)),
                lit(ZERO),
            )
        } else {
            lit(ZERO)
        },
        None => lit(ZERO),
    };
    rate_limit(
        snap.last_rudder,
        pid.output.plus(heel).plus(gust).clamped(
            num(cfg.max_rudder_rad).negated(),
            num(cfg.max_rudder_rad),
        ),
        cfg.max_rudder_rate_rad_per_sec,
        dt,
    )
}

/// Works out the rudder command, and what the loop has to keep of this tick.
pub fn rudder_plan(
    control: &ControlLoop,
    snap: &Snapshot,
    cv: &ControlValues,
    dt: Real,
    cfg: &AutopilotConfig,
) -> (r: RudderPlan)
    ensures
        r == (RudderPlan {
            rudder: rudder_command(*control, *snap, *cv, dt, *cfg),
            integral: control.pid.step(cv.error, cv.d_error, dt, cv.tuning(*cfg)).integral,
            gust_rate: gust_rate(control.gust_detector, *cfg, snap.wind_speed, dt),
            mismatch: match snap.actual_rudder {
                Some(actual) => Some(
                    rudder_mismatch(rudder_command(*control, *snap, *cv, dt, *cfg), actual),
                ),
                None => None,
            },
        }),
{
    let tuning = PidConfig {
        gain_p: cv.gain_p,
        gain_i: cv.gain_i,
        gain_d: cv.gain_d,
        dead_zone_rad: cfg.dead_zone_rad,
        max_rudder_rad: cfg.max_rudder_rad,
    };
    let integral = control.pid.compute(cv.error, cv.d_error, dt, &tuning).integral;
    let gust_rate = match snap.wind_speed {
        Some(ws) => if !cfg.gust_gain.is_zero() {
            Some(control.gust_detector.update(ws, dt))
        } else {
            None
        },
        None => None,
    };
    let mismatch = match snap.actual_rudder {
        Some(actual) => Some(
            rudder_mismatch(command_formula(control, snap, cv, dt, cfg), actual),
        ),
        None => None,
    };
    RudderPlan {
        rudder: command_formula(control, snap, cv, dt, cfg),
        integral,
        gust_rate,
        mismatch,
    }
}

// ---------------------------------------------------------------------------
// Last step
// ---------------------------------------------------------------------------

/// The values that the last step works on.
#[derive(Debug, Clone, Copy)]
pub struct RudderValues {
    pub error: Real,
    pub rudder: Real,
    pub integral: Real,
    pub gust_rate: Option<Real>,
    pub mismatch: Option<Real>,
    /// The filtered sine and cosine of the wind angle, in wind modes.
    pub wind: Option<(Real, Real)>,
}

/// The loop after a tick, before the rudder is watched.
pub open spec fn settled(control: ControlLoop, snap: Snapshot, v: RudderValues) -> ControlLoop {
    ControlLoop {
        pid: PidController { integral: v.integral, ..control.pid },
        wind_filter: match v.wind {
            Some((s, c)) => CircularFilter {
                sin_filter: crate::autopilot::filter::LowPassFilter {
                    value: Some(s),
                    ..control.wind_filter.sin_filter
                },
                cos_filter: crate::autopilot::filter::LowPassFilter {
                    value: Some(c),
                    ..control.wind_filter.cos_filter
                },
            },
            None => control.wind_filter,
        },
        gust_detector: match (snap.wind_speed, v.gust_rate) {
            (Some(ws), Some(rate)) => control.gust_detector.settled(ws, rate),
            _ => control.gust_detector,
        },
        ..control
    }
}

/// What a change of the rudder alarm sends.
pub open spec fn feedback_view(
    before: bool,
    after: bool,
    commanded: Seq<char>,
    actual: Seq<char>,
) -> StepView {
    if after == before {
        StepView { deltas: Seq::empty(), status: None }
    } else if after {
        StepView {
            deltas: seq![
                notification_delta_view(
                    "steering.autopilot.rudderFeedbackFailure"@,
                    NotificationState::Alarm,
                    "Rudder not responding: commanded "@ + commanded + "°, actual "@ + actual
                        + "°"@,
                ),
            ],
            status: Some("Rudder feedback failure — check steering"@),
        }
    } else {
        StepView {
            deltas: seq![
                notification_delta_view(
                    "steering.autopilot.rudderFeedbackFailure"@,
                    NotificationState::Normal,
                    "Rudder feedback restored"@,
                ),
            ],
            status: Some("Active"@),
        }
    }
}

/// The last step of a tick: stores the results, sends the command in ticks that
/// report, and watches the rudder. `commanded` and `actual` are the two rudder angles
/// in degrees, as text; a missing measurement is written as zero.
pub fn finish_tick(
    control: &mut ControlLoop,
    state: &mut AutopilotState,
    snap: &Snapshot,
    emit: bool,
    v: &RudderValues,
    cfg: &AutopilotConfig,
    now: u64,
    commanded: &str,
    actual: &str,
) -> (r: StepOutput)
    requires
        RudderFeedbackMonitor::mismatches(v.mismatch, cfg.rudder_feedback_threshold_rad)
            ==> old(control).rudder_feedback.mismatch_ticks < u32::MAX,
    ensures
        ({
            let before = old(control).rudder_feedback;
            let after = before.next(
                v.mismatch,
                cfg.rudder_feedback_threshold_rad,
                cfg.rudder_feedback_timeout_ticks,
            );
            let feedback = feedback_view(
                before.alarm_active,
                after.alarm_active,
                commanded@,
                actual@,
            );
            let command = if emit {
                seq![rudder_delta_view(v.rudder)]
            } else {
                Seq::<DeltaView>::empty()
            };
            &&& *final(control) == (ControlLoop {
                rudder_feedback: after,
                ..settled(*old(control), *snap, *v)
            })
            &&& final(state)@ == (StateView {
                last_rudder_rad: v.rudder,
                last_error_rad: v.error,
                last_tick_at: Some(now),
                ..old(state)@
            })
            &&& r@ == (StepView {
                deltas: command + feedback.deltas,
                status: feedback.status,
            })
        }),
{
    control.pid.settle(v.integral);
    if let Some((s, c)) = v.wind {
        control.wind_filter.settle(s, c);
    }
    if let (Some(ws), Some(rate)) = (snap.wind_speed, v.gust_rate) {
        control.gust_detector.settle(ws, rate);
    }
    state.last_rudder_rad = v.rudder;
    state.last_error_rad = v.error;
    state.last_tick_at = Some(now);

    let mut deltas: Vec<Delta> = Vec::new();
    assert(delta_views(deltas@) =~= Seq::empty());
    if emit {
        push_delta(&mut deltas, rudder_delta(v.rudder));
    }
    let ghost command = if emit {
        seq![rudder_delta_view(v.rudder)]
    } else {
        Seq::<DeltaView>::empty()
    };
    assert(delta_views(deltas@) =~= command);
    let change = control.rudder_feedback.update(
        v.mismatch,
        cfg.rudder_feedback_threshold_rad,
        cfg.rudder_feedback_timeout_ticks,
    );
    match change {
        Some(true) => {
            let mut message = join("Rudder not responding: commanded ", commanded);
            message.append("°, actual ");
            message.append(actual);
            message.append("°");
            push_delta(
                &mut deltas,
                notification_delta(
                    "steering.autopilot.rudderFeedbackFailure",
                    NotificationState::Alarm,
                    message.as_str(),
                ),
            );
            assert(delta_views(deltas@) =~= command + feedback_view(
                false,
                true,
                commanded@,
                actual@,
            ).deltas);
            StepOutput { deltas, status: Some("Rudder feedback failure — check steering") }
        },
        Some(false) => {
            push_delta(
                &mut deltas,
                notification_delta(
                    "steering.autopilot.rudderFeedbackFailure",
                    NotificationState::Normal,
                    "Rudder feedback restored",
                ),
            );
            assert(delta_views(deltas@) =~= command + feedback_view(
                true,
                false,
                commanded@,
                actual@,
            ).deltas);
            StepOutput { deltas, status: Some("Active") }
        },
        None => {
            assert(command + Seq::<DeltaView>::empty() =~= command);
            StepOutput { deltas, status: None }
        },
    }
}

} // verus!
