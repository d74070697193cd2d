//! PID controller, gain scheduling, recovery, sensor checks and rate limiting.
//!
//! Angles are in radians, speeds in metres per second, times in seconds.
use crate::expr::{lit, num, Expr};
use crate::number::Real;
use crate::units::{ONE, TWO, ZERO};
use vstd::prelude::*;

verus! {

/// Share of the integral that is left after a tick in the dead zone: 0.95.
pub const INTEGRAL_DECAY: u64 = 0x3FEE_6666_6666_6666;

/// Smallest ratio of speed to nominal speed that gains are scaled by: 0.3.
pub const RATIO_MIN: u64 = 0x3FD3_3333_3333_3333;

/// Largest ratio of speed to nominal speed that gains are scaled by: 3.
pub const RATIO_MAX: u64 = 0x4008_0000_0000_0000;

/// Share of the threshold below which recovery ends: 0.3.
pub const RECOVERY_EXIT: u64 = 0x3FD3_3333_3333_3333;

/// The angle within half a turn of zero.
#[verifier::allow_in_spec]
pub fn normalize_angle(a: Expr) -> (r: Expr)
    returns
        a.wrapped(),
{
    a.wrapped()
}

// ---------------------------------------------------------------------------
// Controller
// ---------------------------------------------------------------------------

/// Tuning of the controller.
#[derive(Debug, Clone, Copy, PartialEq, Eq, Structural)]
pub struct PidConfig {
    pub gain_p: Real,
    pub gain_i: Real,
    pub gain_d: Real,
    /// Errors smaller than this are not corrected.
    pub dead_zone_rad: Real,
    pub max_rudder_rad: Real,
}

/// Formulas of the controller's gains.
#[derive(Debug, PartialEq)]
pub struct Gains {
    pub gain_p: Expr,
    pub gain_i: Expr,
    pub gain_d: Expr,
}

/// The gains of a tuning, as they are.
pub open spec fn plain_gains(cfg: PidConfig) -> Gains {
    Gains { gain_p: num(cfg.gain_p), gain_i: num(cfg.gain_i), gain_d: num(cfg.gain_d) }
}

/// The gains of a tuning, as they are.
pub fn gains_of(cfg: &PidConfig) -> (r: Gains)
    ensures
        r == plain_gains(*cfg),
{
    Gains { gain_p: num(cfg.gain_p), gain_i: num(cfg.gain_i), gain_d: num(cfg.gain_d) }
}

/// PID controller that does not wind up: while the output is saturated, the
/// integral only changes if the error opposes it. In the dead zone it decays.
#[derive(Debug, Clone, Copy, PartialEq, Eq, Structural)]
pub struct PidController {
    pub integral: Real,
    pub integral_limit: Real,
}

/// Formulas of the rudder command and the integral after a tick.
#[derive(Debug, PartialEq)]
pub struct PidStep {
    pub output: Expr,
    pub integral: Expr,
}

/// The sign of an error opposes that of the integral, or one is not a number. An integral of
/// zero has no sign to oppose.
pub open spec fn opposed(error: Real, integral: Real) -> bool {
    error.nan() || integral.nan() || (!integral.zero() && error.negative()
        != integral.negative())
}

impl PidController {
    pub fn new(integral_limit: Real) -> (r: Self)
        ensures
            r == (PidController { integral: Real { bits: ZERO }, integral_limit }),
    {
        PidController { integral: Real { bits: ZERO }, integral_limit }
    }

    /// Clears the integral.
    pub fn reset(&mut self)
        ensures
            *final(self) == (PidController { integral: Real { bits: ZERO }, ..*old(self) }),
    {
        self.integral = Real { bits: ZERO };
    }

    /// The integral.
    pub fn integral(&self) -> (r: Real)
        ensures
            r == self.integral,
    {
        self.integral
    }

    /// Stores the integral after a tick.
    pub fn settle(&mut self, integral: Real)
        ensures
            *final(self) == (PidController { integral, ..*old(self) }),
    {
        self.integral = integral;
    }

    /// The inputs allow a correction: all are finite, and time has passed.
    pub open spec fn usable(error: Real, d_error: Real, dt: Real) -> bool {
        error.finite() && d_error.finite() && dt.finite() && !dt.le(Real { bits: ZERO })
    }

    /// The proportional and derivative part of the output, with the present integral.
    pub open spec fn prospective(self, error: Real, d_error: Real, cfg: PidConfig) -> Expr {
        num(cfg.gain_p).times(num(error)).plus(num(cfg.gain_d).times(num(d_error))).plus(
            num(cfg.gain_i).times(num(self.integral)),
        )
    }

    /// The integral with this tick's error added, within its limits.
    pub open spec fn integrated(self, error: Real, dt: Real) -> Expr {
        num(self.integral).plus(num(error).times(num(dt))).clamped(
            num(self.integral_limit).negated(),
            num(self.integral_limit),
        )
    }

    /// The integral after a correction.
    pub open spec fn next_integral(
        self,
        error: Real,
        d_error: Real,
        dt: Real,
        cfg: PidConfig,
    ) -> Expr {
        if opposed(error, self.integral) {
            self.integrated(error, dt)
        } else {
            self.prospective(error, d_error, cfg).absolute().if_less(
                num(cfg.max_rudder_rad),
                self.integrated(error, dt),
                num(self.integral),
            )
        }
    }

    /// The output and the integral of a tick: nothing changes and the rudder is
    /// amidships on unusable inputs; in the dead zone the rudder is amidships and the
    /// integral decays.
    pub open spec fn step(
        self,
        error: Real,
        d_error: Real,
        dt: Real,
        cfg: PidConfig,
    ) -> PidStep {
        if !PidController::usable(error, d_error, dt) {
            PidStep { output: lit(ZERO), integral: num(self.integral) }
        } else if error.unsigned().lt(cfg.dead_zone_rad) {
            PidStep {
                output: lit(ZERO),
                integral: num(self.integral).times(lit(INTEGRAL_DECAY)),
            }
        } else {
            let integral = self.next_integral(error, d_error, dt, cfg);
            PidStep {
                output: num(cfg.gain_p).times(num(error)).plus(
                    num(cfg.gain_i).times(integral),
                ).plus(num(cfg.gain_d).times(num(d_error))).clamped(
                    num(cfg.max_rudder_rad).negated(),
                    num(cfg.max_rudder_rad),
                ),
                integral,
            }
        }
    }

    fn integral_formula(
        &self,
        error: Real,
        d_error: Real,
        dt: Real,
        cfg: &PidConfig,
    ) -> (r: Expr)
        ensures
            r == self.next_integral(error, d_error, dt, *cfg),
    {
        let integrated = num(self.integral).plus(num(error).times(num(dt))).clamped(
            num(self.integral_limit).negated(),
            num(self.integral_limit),
        );
        let prospective = num(cfg.gain_p).times(num(error)).plus(
            num(cfg.gain_d).times(num(d_error)),
        ).plus(num(cfg.gain_i).times(num(self.integral)));
        if error.is_nan() || self.integral.is_nan() || (!self.integral.is_zero()
            && error.is_negative() != self.integral.is_negative()) {
            integrated
        } else {
            prospective.absolute().if_less(
                num(cfg.max_rudder_rad),
                integrated,
                num(self.integral),
            )
        }
    }

    /// The formulas of the rudder command and of the integral after a tick.
    ///
    /// `error_rad` is the signed error (target minus current), `d_error_rad` its rate
    /// of change, `dt` the time since the last tick. A positive command is starboard.
    pub fn compute(
        &self,
        error_rad: Real,
        d_error_rad: Real,
        dt: Real,
        cfg: &PidConfig,
    ) -> (r: PidStep)
        ensures
            r == self.step(error_rad, d_error_rad, dt, *cfg),
    {
        let zero = Real { bits: ZERO };
        if !error_rad.is_finite() || !d_error_rad.is_finite() || !dt.is_finite() || dt.at_most(
            zero,
        ) {
            return PidStep { output: lit(ZERO), integral: num(self.integral) };
        }
        if error_rad.abs().less_than(cfg.dead_zone_rad) {
            return PidStep {
                output: lit(ZERO),
                integral: num(self.integral).times(lit(INTEGRAL_DECAY)),
            };
        }
        let output = num(cfg.gain_p).times(num(error_rad)).plus(
            num(cfg.gain_i).times(self.integral_formula(error_rad, d_error_rad, dt, cfg)),
        ).plus(num(cfg.gain_d).times(num(d_error_rad))).clamped(
            num(cfg.max_rudder_rad).negated(),
            num(cfg.max_rudder_rad),
        );
        PidStep { output, integral: self.integral_formula(error_rad, d_error_rad, dt, cfg) }
    }
}

// ---------------------------------------------------------------------------
// Gain scheduling
// ---------------------------------------------------------------------------

/// The ratio of speed to nominal speed that gains are scaled by.
#[verifier::allow_in_spec]
pub fn speed_ratio(speed_mps: Real, speed_nominal_mps: Real) -> (r: Expr)
    returns
        num(speed_mps).over(num(speed_nominal_mps)).clamped(lit(RATIO_MIN), lit(RATIO_MAX)),
{
    num(speed_mps).over(num(speed_nominal_mps)).clamped(lit(RATIO_MIN), lit(RATIO_MAX))
}

/// The gains for a speed: P and I grow with it, D shrinks. Without a usable speed or
/// nominal speed they stay as they are.
pub open spec fn scaled_gains(
    cfg: PidConfig,
    speed_mps: Real,
    speed_nominal_mps: Real,
) -> Gains {
    let zero = Real { bits: ZERO };
    if speed_nominal_mps.le(zero) || !speed_mps.finite() || speed_mps.le(zero) {
        plain_gains(cfg)
    } else {
        Gains {
            gain_p: num(cfg.gain_p).times(speed_ratio(speed_mps, speed_nominal_mps)),
            gain_i: num(cfg.gain_i).times(speed_ratio(speed_mps, speed_nominal_mps)),
            gain_d: num(cfg.gain_d).over(speed_ratio(speed_mps, speed_nominal_mps)),
        }
    }
}

/// Scales the gains with the vessel's speed.
pub fn scale_gains(cfg: &PidConfig, speed_mps: Real, speed_nominal_mps: Real) -> (r: Gains)
    ensures
        r == scaled_gains(*cfg, speed_mps, speed_nominal_mps),
{
    let zero = Real { bits: ZERO };
    if speed_nominal_mps.at_most(zero) || !speed_mps.is_finite() || speed_mps.at_most(zero) {
        return gains_of(cfg);
    }
    Gains {
        gain_p: num(cfg.gain_p).times(speed_ratio(speed_mps, speed_nominal_mps)),
        gain_i: num(cfg.gain_i).times(speed_ratio(speed_mps, speed_nominal_mps)),
        gain_d: num(cfg.gain_d).over(speed_ratio(speed_mps, speed_nominal_mps)),
    }
}

// ---------------------------------------------------------------------------
// Recovery
// ---------------------------------------------------------------------------

/// Temporary stronger gains for large sudden deviations. Recovery begins when the
/// error exceeds a threshold and ends when it falls below 30 per cent of it, or
/// after a number of ticks.
#[derive(Debug, Clone, Copy, PartialEq, Eq, Structural)]
pub struct RecoveryState {
    pub active: bool,
    pub ticks_remaining: u32,
}

/// The error below which recovery ends.
#[verifier::allow_in_spec]
pub fn recovery_exit(threshold_rad: Real) -> (r: Expr)
    returns
        num(threshold_rad).times(lit(RECOVERY_EXIT)),
{
    num(threshold_rad).times(lit(RECOVERY_EXIT))
}

impl Default for RecoveryState {
    fn default() -> (r: Self)
        ensures
            r == (RecoveryState { active: false, ticks_remaining: 0 }),
    {
        RecoveryState::new()
    }
}

impl RecoveryState {
    #[verifier::allow_in_spec]
    pub fn new() -> (r: Self)
        returns
            (RecoveryState { active: false, ticks_remaining: 0 }),
    {
        RecoveryState { active: false, ticks_remaining: 0 }
    }

    /// The state after a tick. A threshold of zero or less disables recovery.
    pub open spec fn next(
        self,
        error: Real,
        threshold: Real,
        exit_below: Real,
        max_ticks: u32,
    ) -> RecoveryState {
        if threshold.le(Real { bits: ZERO }) {
            self
        } else {
            let begun = if !self.active && threshold.lt(error.unsigned()) {
                RecoveryState { active: true, ticks_remaining: max_ticks }
            } else {
                self
            };
            if begun.active {
                let left = if begun.ticks_remaining > 0 {
                    (begun.ticks_remaining - 1) as u32
                } else {
                    0
                };
                RecoveryState {
                    active: left != 0 && !error.unsigned().lt(exit_below),
                    ticks_remaining: left,
                }
            } else {
                begun
            }
        }
    }

    /// Begins or ends recovery, once per tick. `exit_below` is the value of
    /// [`recovery_exit`]. Returns whether recovery is active.
    pub fn update(
        &mut self,
        error_rad: Real,
        threshold_rad: Real,
        exit_below: Real,
        max_ticks: u32,
    ) -> (r: bool)
        ensures
            *final(self) == old(self).next(error_rad, threshold_rad, exit_below, max_ticks),
            r == (!threshold_rad.le(Real { bits: ZERO }) && final(self).active),
    {
        let zero = Real { bits: ZERO };
        if threshold_rad.at_most(zero) {
            return false;
        }
        if !self.active && threshold_rad.less_than(error_rad.abs()) {
            self.active = true;
            self.ticks_remaining = max_ticks;
        }
        if self.active {
            self.ticks_remaining = if self.ticks_remaining > 0 {
                self.ticks_remaining - 1
            } else {
                0
            };
            if self.ticks_remaining == 0 || error_rad.abs().less_than(exit_below) {
                self.active = false;
            }
        }
        self.active
    }

    /// The gains in this state: during recovery P and D are multiplied by a factor and
    /// I is off.
    pub open spec fn adjusted(self, gains: Gains, gain_factor: Real) -> Gains {
        if self.active {
            Gains {
                gain_p: gains.gain_p.times(num(gain_factor)),
                gain_i: lit(ZERO),
                gain_d: gains.gain_d.times(num(gain_factor)),
            }
        } else {
            gains
        }
    }

    /// Adjusts the gains to the state.
    pub fn apply(&self, gains: Gains, gain_factor: Real) -> (r: Gains)
        ensures
            r == self.adjusted(gains, gain_factor),
    {
        if !self.active {
            return gains;
        }
        Gains {
            gain_p: gains.gain_p.times(num(gain_factor)),
            gain_i: lit(ZERO),
            gain_d: gains.gain_d.times(num(gain_factor)),
        }
    }

    pub fn is_active(&self) -> (r: bool)
        ensures
            r == self.active,
    {
        self.active
    }

    pub fn reset(&mut self)
        ensures
            *final(self) == RecoveryState::new(),
    {
        self.active = false;
        self.ticks_remaining = 0;
    }
}

// ---------------------------------------------------------------------------
// Rudder feedback
// ---------------------------------------------------------------------------

/// Compares commanded and actual rudder angle. After a number of mismatches in a
/// row an alarm fires; it clears with the first match. Without a sensor nothing
/// happens.
#[derive(Debug, Clone, Copy, PartialEq, Eq, Structural)]
pub struct RudderFeedbackMonitor {
    pub mismatch_ticks: u32,
    pub alarm_active: bool,
}

/// The mismatch of commanded and actual rudder angle.
#[verifier::allow_in_spec]
pub fn rudder_mismatch(commanded: Expr, actual: Real) -> (r: Expr)
    returns
        commanded.minus(num(actual)).absolute(),
{
    commanded.minus(num(actual)).absolute()
}

impl Default for RudderFeedbackMonitor {
    fn default() -> (r: Self)
        ensures
            r == (RudderFeedbackMonitor { mismatch_ticks: 0, alarm_active: false }),
    {
        RudderFeedbackMonitor::new()
    }
}

impl RudderFeedbackMonitor {
    #[verifier::allow_in_spec]
    pub fn new() -> (r: Self)
        returns
            (RudderFeedbackMonitor { mismatch_ticks: 0, alarm_active: false }),
    {
        RudderFeedbackMonitor { mismatch_ticks: 0, alarm_active: false }
    }

    /// The tick counts as a mismatch.
    pub open spec fn mismatches(mismatch: Option<Real>, threshold: Real) -> bool {
        match mismatch {
            Some(m) => !threshold.le(Real { bits: ZERO }) && threshold.lt(m),
            None => false,
        }
    }

    /// The state after a tick. A threshold of zero or less disables the monitor.
    pub open spec fn next(
        self,
        mismatch: Option<Real>,
        threshold: Real,
        timeout_ticks: u32,
    ) -> RudderFeedbackMonitor {
        match mismatch {
            Some(m) => if threshold.le(Real { bits: ZERO }) {
                self
            } else if Self::mismatches(mismatch, threshold) {
                let ticks = (self.mismatch_ticks + 1) as u32;
                RudderFeedbackMonitor {
                    mismatch_ticks: ticks,
                    alarm_active: self.alarm_active || ticks >= timeout_ticks,
                }
            } else {
                RudderFeedbackMonitor::new()
            },
            None => self,
        }
    }

    /// Checks the rudder feedback of a tick. `mismatch` is the value of
    /// [`rudder_mismatch`], missing where there is no sensor. Returns `Some(true)`
    /// when the alarm fires, `Some(false)` when it clears, and nothing else.
    pub fn update(
        &mut self,
        mismatch: Option<Real>,
        threshold_rad: Real,
        timeout_ticks: u32,
    ) -> (r: Option<bool>)
        requires
            Self::mismatches(mismatch, threshold_rad) ==> old(self).mismatch_ticks < u32::MAX,
        ensures
            *final(self) == old(self).next(mismatch, threshold_rad, timeout_ticks),
            r == (if final(self).alarm_active == old(self).alarm_active {
                None
            } else {
                Some(final(self).alarm_active)
            }),
    {
        let zero = Real { bits: ZERO };
        if threshold_rad.at_most(zero) {
            return None;
        }
        let m = match mismatch {
            Some(m) => m,
            None => {
                return None;
            },
        };
        if threshold_rad.less_than(m) {
            self.mismatch_ticks = self.mismatch_ticks + 1;
            if self.mismatch_ticks >= timeout_ticks && !self.alarm_active {
                self.alarm_active = true;
                return Some(true);
            }
        } else {
            self.mismatch_ticks = 0;
            if self.alarm_active {
                self.alarm_active = false;
                return Some(false);
            }
        }
        None
    }

    pub fn is_alarm_active(&self) -> (r: bool)
        ensures
            r == self.alarm_active,
    {
        self.alarm_active
    }

    pub fn reset(&mut self)
        ensures
            *final(self) == RudderFeedbackMonitor::new(),
    {
        self.mismatch_ticks = 0;
        self.alarm_active = false;
    }
}

// ---------------------------------------------------------------------------
// Heading plausibility
// ---------------------------------------------------------------------------

/// Result of a heading plausibility check.
#[derive(Debug, Clone, Copy, PartialEq, Eq, Structural)]
pub enum PlausibilityResult {
    /// The heading is plausible.
    Plausible(Real),
    /// A spike; the previous heading is to be used.
    Glitch(Real),
    /// Too many spikes in a row.
    SensorFailure,
}

/// Detects implausible heading jumps. The last plausible heading is kept during a
/// glitch, so a return to it is recognised.
#[derive(Debug, Clone, Copy, PartialEq, Eq, Structural)]
pub struct HeadingPlausibility {
    pub prev_value: Option<Real>,
    pub glitch_count: u32,
    pub max_consecutive_glitches: u32,
}

impl HeadingPlausibility {
    pub fn new(max_consecutive_glitches: u32) -> (r: Self)
        ensures
            r == (HeadingPlausibility {
                prev_value: None,
                glitch_count: 0,
                max_consecutive_glitches,
            }),
    {
        HeadingPlausibility { prev_value: None, glitch_count: 0, max_consecutive_glitches }
    }

    /// The size of the jump to a new heading, missing for the first one.
    pub open spec fn jump_view(self, value: Real) -> Option<Expr> {
        match self.prev_value {
            Some(prev) => Some(normalize_angle(num(value).minus(num(prev))).absolute()),
            None => None,
        }
    }

    /// The formula of the jump to a new heading.
    pub fn jump(&self, value: Real) -> (r: Option<Expr>)
        ensures
            r == self.jump_view(value),
    {
        match self.prev_value {
            Some(prev) => Some(normalize_angle(num(value).minus(num(prev))).absolute()),
            None => None,
        }
    }

    /// The verdict on a new heading, given the sizes of the jump and of the largest
    /// plausible one.
    pub open spec fn verdict(
        self,
        value: Real,
        jump: Real,
        max_jump: Real,
    ) -> PlausibilityResult {
        match self.prev_value {
            None => PlausibilityResult::Plausible(value),
            Some(prev) => if jump.le(max_jump) {
                PlausibilityResult::Plausible(value)
            } else if self.glitch_count + 1 >= self.max_consecutive_glitches {
                PlausibilityResult::SensorFailure
            } else {
                PlausibilityResult::Glitch(prev)
            },
        }
    }

    /// The jump to a new heading is too large.
    pub open spec fn glitches(self, jump: Real, max_jump: Real) -> bool {
        self.prev_value is Some && !jump.le(max_jump)
    }

    /// The state after a new heading.
    pub open spec fn next(self, value: Real, jump: Real, max_jump: Real) -> HeadingPlausibility {
        if self.glitches(jump, max_jump) {
            HeadingPlausibility { glitch_count: (self.glitch_count + 1) as u32, ..self }
        } else {
            HeadingPlausibility { prev_value: Some(value), glitch_count: 0, ..self }
        }
    }

    /// Checks a new heading. `jump` and `max_jump` are the values of the formulas
    /// [`HeadingPlausibility::jump`] and [`max_jump`]; they do not matter for the
    /// first heading.
    pub fn check(&mut self, value: Real, jump: Real, max_jump: Real) -> (r: PlausibilityResult)
        requires
            old(self).glitches(jump, max_jump) ==> old(self).glitch_count < u32::MAX,
        ensures
            r == old(self).verdict(value, jump, max_jump),
            *final(self) == old(self).next(value, jump, max_jump),
    {
        let prev = match self.prev_value {
            Some(p) => p,
            None => {
                self.prev_value = Some(value);
                self.glitch_count = 0;
                return PlausibilityResult::Plausible(value);
            },
        };
        if jump.at_most(max_jump) {
            self.prev_value = Some(value);
            self.glitch_count = 0;
            PlausibilityResult::Plausible(value)
        } else {
            self.glitch_count = self.glitch_count + 1;
            if self.glitch_count >= self.max_consecutive_glitches {
                PlausibilityResult::SensorFailure
            } else {
                PlausibilityResult::Glitch(prev)
            }
        }
    }

    pub fn reset(&mut self)
        ensures
            *final(self) == old(self).cleared(),
    {
        self.prev_value = None;
        self.glitch_count = 0;
    }

    /// The state before the first heading.
    pub open spec fn cleared(self) -> HeadingPlausibility {
        HeadingPlausibility { prev_value: None, glitch_count: 0, ..self }
    }
}

/// The largest plausible jump within a time.
#[verifier::allow_in_spec]
pub fn max_jump(max_rate_rad_per_sec: Real, dt: Expr) -> (r: Expr)
    returns
        num(max_rate_rad_per_sec).times(dt.max(lit(ZERO))),
{
    num(max_rate_rad_per_sec).times(dt.max(lit(ZERO)))
}

// ---------------------------------------------------------------------------
// Sensor quality, yaw rate, rate limiting
// ---------------------------------------------------------------------------

/// The weight of a sensor value of a given age: it halves with every half-life. It
/// is 0 for an age or half-life that is not finite, 1 for a half-life that is not
/// positive (disabled) and for an age below zero.
pub open spec fn quality(age_secs: Real, half_life_secs: Real) -> Expr {
    let zero = Real { bits: ZERO };
    if !age_secs.finite() || !half_life_secs.finite() {
        lit(ZERO)
    } else if half_life_secs.le(zero) || age_secs.lt(zero) {
        lit(ONE)
    } else {
        lit(TWO).powf(num(age_secs).negated().over(num(half_life_secs))).clamped(
            lit(ZERO),
            lit(ONE),
        )
    }
}

/// The formula of the weight of a sensor value of a given age.
pub fn sensor_quality(age_secs: Real, half_life_secs: Real) -> (r: Expr)
    ensures
        r == quality(age_secs, half_life_secs),
{
    let zero = Real { bits: ZERO };
    if !age_secs.is_finite() || !half_life_secs.is_finite() {
        return lit(ZERO);
    }
    if half_life_secs.at_most(zero) || age_secs.less_than(zero) {
        return lit(ONE);
    }
    lit(TWO).powf(num(age_secs).negated().over(num(half_life_secs))).clamped(lit(ZERO), lit(ONE))
}

/// A yaw rate, if it is finite and within the physical bound.
pub open spec fn plausible_yaw_rate(rate: Option<Real>, max_rate: Real) -> Option<Real> {
    match rate {
        Some(r) => if !r.finite() || max_rate.lt(r.unsigned()) {
            None
        } else {
            Some(r)
        },
        None => None,
    }
}

/// Holds a yaw rate against the physical bound.
pub fn validate_yaw_rate(rate: Option<Real>, max_rate_rad_per_sec: Real) -> (r: Option<Real>)
    ensures
        r == plausible_yaw_rate(rate, max_rate_rad_per_sec),
{
    match rate {
        Some(r) => if !r.is_finite() || max_rate_rad_per_sec.less_than(r.abs()) {
            None
        } else {
            Some(r)
        },
        None => None,
    }
}

/// The rudder after moving from `current` towards `target` at no more than the given
/// rate. A rate of zero or less does not limit, nor does a time that is not positive.
pub open spec fn limited(
    current: Real,
    target: Expr,
    max_rate_rad_per_sec: Real,
    dt: Real,
) -> Expr {
    let zero = Real { bits: ZERO };
    if max_rate_rad_per_sec.le(zero) || !dt.finite() || dt.le(zero) {
        target
    } else {
        num(current).plus(
            target.minus(num(current)).clamped(
                num(max_rate_rad_per_sec).times(num(dt)).negated(),
                num(max_rate_rad_per_sec).times(num(dt)),
            ),
        )
    }
}

/// The formula of the rudder after moving at a limited rate.
pub fn rate_limit(
    current: Real,
    target: Expr,
    max_rate_rad_per_sec: Real,
    dt: Real,
) -> (r: Expr)
    ensures
        r == limited(current, target, max_rate_rad_per_sec, dt),
{
    let zero = Real { bits: ZERO };
    if max_rate_rad_per_sec.at_most(zero) || !dt.is_finite() || dt.at_most(zero) {
        return target;
    }
    num(current).plus(
        target.minus(num(current)).clamped(
            num(max_rate_rad_per_sec).times(num(dt)).negated(),
            num(max_rate_rad_per_sec).times(num(dt)),
        ),
    )
}

} // verus!
