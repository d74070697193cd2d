#![allow(dead_code)]
use signalk_plugins::autopilot::filter;
use signalk_plugins::autopilot::modes;
use signalk_plugins::autopilot::modes::ErrorFormulas;
use signalk_plugins::autopilot::pd;
use signalk_plugins::expr::Expr;
use signalk_plugins::number::Real;
use std::f64::consts::PI;

fn r64(x: f64) -> Real {
    Real { bits: x.to_bits() }
}

fn float(r: Real) -> f64 {
    f64::from_bits(r.bits)
}

/// Carries out a formula.
fn eval(e: &Expr) -> f64 {
    let half: f64 = std::f64::consts::PI;
    match e {
        Expr::Lit(r) => float(*r),
        Expr::Single(bits) => f32::from_bits(*bits) as f64,
        Expr::Int(i) => *i as f64,
        Expr::Uint(u) => *u as f64,
        Expr::Neg(a) => -eval(a),
        Expr::Abs(a) => eval(a).abs(),
        Expr::Sqrt(a) => eval(a).sqrt(),
        Expr::Sin(a) => eval(a).sin(),
        Expr::Cos(a) => eval(a).cos(),
        Expr::Asin(a) => eval(a).asin(),
        Expr::Atan(a) => eval(a).atan(),
        Expr::Exp(a) => eval(a).exp(),
        Expr::Floor(a) => eval(a).floor(),
        Expr::Round(a) => eval(a).round(),
        Expr::Signum(a) => eval(a).signum(),
        Expr::Wrap(a) => {
            let mut x = eval(a);
            while x > half {
                x -= 2.0 * half;
            }
            while x < -half {
                x += 2.0 * half;
            }
            x
        }
        Expr::ToRadians(a) => eval(a).to_radians(),
        Expr::ToDegrees(a) => eval(a).to_degrees(),
        Expr::ToSingle(a) => eval(a) as f32 as f64,
        Expr::ToWord(a) => eval(a) as u32 as f64,
        Expr::Add(a, b) => eval(a) + eval(b),
        Expr::Sub(a, b) => eval(a) - eval(b),
        Expr::Mul(a, b) => eval(a) * eval(b),
        Expr::Div(a, b) => eval(a) / eval(b),
        Expr::Rem(a, b) => eval(a) % eval(b),
        Expr::RemEuclid(a, b) => eval(a).rem_euclid(eval(b)),
        Expr::Atan2(a, b) => eval(a).atan2(eval(b)),
        Expr::Powf(a, b) => eval(a).powf(eval(b)),
        Expr::Min(a, b) => eval(a).min(eval(b)),
        Expr::Max(a, b) => eval(a).max(eval(b)),
        Expr::Clamp(a, lo, hi) => eval(a).clamp(eval(lo), eval(hi)),
        Expr::IfLess(a, b, yes, no) => {
            if eval(a) < eval(b) {
                eval(yes)
            } else {
                eval(no)
            }
        }
    }
}

#[derive(Debug, Clone)]
struct PidConfig {
    gain_p: f64,
    gain_i: f64,
    gain_d: f64,
    dead_zone_rad: f64,
    max_rudder_rad: f64,
}

fn tuning(cfg: &PidConfig) -> pd::PidConfig {
    pd::PidConfig {
        gain_p: r64(cfg.gain_p),
        gain_i: r64(cfg.gain_i),
        gain_d: r64(cfg.gain_d),
        dead_zone_rad: r64(cfg.dead_zone_rad),
        max_rudder_rad: r64(cfg.max_rudder_rad),
    }
}

fn with_gains(cfg: &PidConfig, gains: &pd::Gains) -> PidConfig {
    PidConfig {
        gain_p: eval(&gains.gain_p),
        gain_i: eval(&gains.gain_i),
        gain_d: eval(&gains.gain_d),
        ..cfg.clone()
    }
}

fn normalize_angle(a: f64) -> f64 {
    eval(&pd::normalize_angle(Expr::Lit(r64(a))))
}

fn scale_gains(cfg: &PidConfig, speed: f64, nominal: f64) -> PidConfig {
    with_gains(cfg, &pd::scale_gains(&tuning(cfg), r64(speed), r64(nominal)))
}

fn rate_limit(current: f64, target: f64, max_rate: f64, dt: f64) -> f64 {
    eval(&pd::rate_limit(r64(current), Expr::Lit(r64(target)), r64(max_rate), r64(dt)))
}

fn sensor_quality(age: f64, half_life: f64) -> f64 {
    eval(&pd::sensor_quality(r64(age), r64(half_life)))
}

fn validate_yaw_rate(rate: Option<f64>, bound: f64) -> Option<f64> {
    pd::validate_yaw_rate(rate.map(r64), r64(bound)).map(float)
}

struct PidController {
    inner: pd::PidController,
}

impl PidController {
    fn new(limit: f64) -> Self {
        PidController { inner: pd::PidController::new(r64(limit)) }
    }

    fn compute(&mut self, error: f64, d_error: f64, dt: f64, cfg: &PidConfig) -> f64 {
        let step = self.inner.compute(r64(error), r64(d_error), r64(dt), &tuning(cfg));
        let output = eval(&step.output);
        self.inner.settle(r64(eval(&step.integral)));
        output
    }

    fn integral(&self) -> f64 {
        float(self.inner.integral())
    }

    fn reset(&mut self) {
        self.inner.reset();
    }
}

struct RecoveryState {
    inner: pd::RecoveryState,
}

impl RecoveryState {
    fn new() -> Self {
        RecoveryState { inner: pd::RecoveryState::new() }
    }

    fn update(&mut self, error: f64, threshold: f64, max_ticks: u32) -> bool {
        let exit = eval(&pd::recovery_exit(r64(threshold)));
        self.inner.update(r64(error), r64(threshold), r64(exit), max_ticks)
    }

    fn apply(&self, cfg: &PidConfig, factor: f64) -> PidConfig {
        with_gains(cfg, &self.inner.apply(pd::gains_of(&tuning(cfg)), r64(factor)))
    }

    fn is_active(&self) -> bool {
        self.inner.is_active()
    }

    fn reset(&mut self) {
        self.inner.reset();
    }
}

struct RudderFeedbackMonitor {
    inner: pd::RudderFeedbackMonitor,
}

impl RudderFeedbackMonitor {
    fn new() -> Self {
        RudderFeedbackMonitor { inner: pd::RudderFeedbackMonitor::new() }
    }

    fn update(
        &mut self,
        commanded: f64,
        actual: Option<f64>,
        threshold: f64,
        timeout: u32,
    ) -> Option<bool> {
        let mismatch =
            actual.map(|a| r64(eval(&pd::rudder_mismatch(Expr::Lit(r64(commanded)), r64(a)))));
        self.inner.update(mismatch, r64(threshold), timeout)
    }

    fn is_alarm_active(&self) -> bool {
        self.inner.is_alarm_active()
    }

    fn reset(&mut self) {
        self.inner.reset();
    }
}

#[derive(Debug)]
enum PlausibilityResult {
    Plausible(f64),
    Glitch(f64),
    SensorFailure,
}

struct HeadingPlausibility {
    inner: pd::HeadingPlausibility,
}

impl HeadingPlausibility {
    fn new(max_glitches: u32) -> Self {
        HeadingPlausibility { inner: pd::HeadingPlausibility::new(max_glitches) }
    }

    fn check(&mut self, value: f64, max_rate: f64, dt: f64) -> PlausibilityResult {
        let jump = self.inner.jump(r64(value)).map_or(0.0, |e| eval(&e));
        let bound = eval(&pd::max_jump(r64(max_rate), Expr::Lit(r64(dt))));
        match self.inner.check(r64(value), r64(jump), r64(bound)) {
            pd::PlausibilityResult::Plausible(v) => PlausibilityResult::Plausible(float(v)),
            pd::PlausibilityResult::Glitch(v) => PlausibilityResult::Glitch(float(v)),
            pd::PlausibilityResult::SensorFailure => PlausibilityResult::SensorFailure,
        }
    }

    fn reset(&mut self) {
        self.inner.reset();
    }
}

struct RateDetector {
    inner: filter::RateDetector,
}

impl RateDetector {
    fn new(alpha: f64) -> Self {
        RateDetector { inner: filter::RateDetector::new(r64(alpha)) }
    }

    fn update(&mut self, value: f64, dt: f64) -> f64 {
        let rate = eval(&self.inner.update(r64(value), r64(dt)));
        self.inner.settle(r64(value), r64(rate));
        rate
    }

    fn reset(&mut self) {
        self.inner.reset();
    }
}

fn steer(
    formulas: &ErrorFormulas,
    dt: f64,
    pid: &mut PidController,
    cfg: &PidConfig,
) -> (f64, f64) {
    let error = eval(&formulas.error);
    (pid.compute(error, eval(&formulas.d_error), dt, cfg), error)
}

fn heading_compute(
    current: f64,
    target: f64,
    prev_error: f64,
    dt: f64,
    yaw_rate: Option<f64>,
    pid: &mut PidController,
    cfg: &PidConfig,
) -> (f64, f64) {
    let formulas = modes::heading(
        r64(current),
        r64(target),
        r64(prev_error),
        r64(dt),
        yaw_rate.map(r64),
    );
    steer(&formulas, dt, pid, cfg)
}

struct LowPassFilter {
    inner: filter::LowPassFilter,
}

impl LowPassFilter {
    fn new(alpha: f64) -> Self {
        LowPassFilter { inner: filter::LowPassFilter::new(r64(alpha)) }
    }

    fn update(&mut self, input: f64) -> f64 {
        let output = eval(&self.inner.update(Expr::Lit(r64(input))));
        self.inner.settle(r64(output));
        output
    }

    fn get(&self) -> Option<f64> {
        self.inner.get().map(float)
    }

    fn reset(&mut self) {
        self.inner.reset();
    }
}

struct CircularFilter {
    inner: filter::CircularFilter,
}

impl CircularFilter {
    fn new(alpha: f64) -> Self {
        CircularFilter { inner: filter::CircularFilter::new(r64(alpha)) }
    }

    fn update(&mut self, angle: f64) -> f64 {
        let output = eval(&self.inner.update(r64(angle)));
        let (sin, cos) = self.inner.components(r64(angle));
        self.inner.settle(r64(eval(&sin)), r64(eval(&cos)));
        output
    }

    fn get(&self) -> Option<f64> {
        self.inner.get().map(|e| eval(&e))
    }

    fn reset(&mut self) {
        self.inner.reset();
    }
}

fn default_cfg() -> PidConfig {
    PidConfig {
        gain_p: 1.0,
        gain_i: 0.05,
        gain_d: 0.3,
        dead_zone_rad: 0.01745,
        max_rudder_rad: std::f64::consts::FRAC_PI_6,
    }
}

#[test]
fn lpf_initializes_to_first_sample() {
    let mut f = LowPassFilter::new(0.5);
    assert_eq!(f.update(3.0), 3.0);
}

#[test]
fn lpf_converges_toward_input() {
    let mut f = LowPassFilter::new(0.5);
    f.update(0.0);
    let out = f.update(10.0);
    assert!(out > 0.0 && out < 10.0);
}

#[test]
fn lpf_passthrough_with_alpha_one() {
    let mut f = LowPassFilter::new(1.0);
    f.update(1.0);
    assert_eq!(f.update(42.0), 42.0);
}

#[test]
fn lpf_output_stays_between_last_and_input() {
    let mut f = LowPassFilter::new(0.3);
    f.update(5.0);
    let out = f.update(10.0);
    assert!((5.0..=10.0).contains(&out));
}

#[test]
fn lpf_reset_reinitializes() {
    let mut f = LowPassFilter::new(0.5);
    f.update(10.0);
    f.reset();
    assert_eq!(f.update(5.0), 5.0);
}

#[test]
fn lpf_get_none_before_update() {
    let f = LowPassFilter::new(0.5);
    assert!(f.get().is_none());
}

#[test]
fn lpf_get_returns_value_after_update() {
    let mut f = LowPassFilter::new(0.5);
    f.update(7.0);
    assert_eq!(f.get(), Some(7.0));
}

#[test]
fn lpf_heavy_smoothing_changes_slowly() {
    let mut f = LowPassFilter::new(0.05);
    f.update(0.0);
    let out = f.update(100.0);
    assert!(out < 10.0);
}

#[test]
fn circular_initializes_to_first_sample() {
    let mut f = CircularFilter::new(0.5);
    let out = f.update(1.0);
    assert!((out - 1.0).abs() < 1e-10);
}

#[test]
fn circular_stays_near_pi_when_crossing_boundary() {
    // The key test: crossing +/-pi should NOT dip toward 0
    let mut f = CircularFilter::new(0.3);
    f.update(3.1); // just below pi
    f.update(std::f64::consts::PI);
    let out1 = f.update(-std::f64::consts::PI); // just past -pi
    let out2 = f.update(-3.1);

    // Both outputs should be near +/-pi, NOT near 0
    assert!(
        out1.abs() > 2.5,
        "should stay near +/-pi when crossing boundary, got {out1}"
    );
    assert!(
        out2.abs() > 2.5,
        "should stay near +/-pi when crossing boundary, got {out2}"
    );
}

#[test]
fn circular_converges_away_from_boundary() {
    // Away from the boundary, behaves like a normal filter
    let mut f = CircularFilter::new(0.5);
    f.update(0.0);
    let out = f.update(1.0);
    assert!(out > 0.0 && out < 1.0);
}

#[test]
fn circular_reset_reinitializes() {
    let mut f = CircularFilter::new(0.5);
    f.update(1.0);
    f.reset();
    let out = f.update(2.0);
    assert!((out - 2.0).abs() < 1e-10);
}

#[test]
fn circular_get_none_before_update() {
    let f = CircularFilter::new(0.5);
    assert!(f.get().is_none());
}

#[test]
fn circular_get_returns_value() {
    let mut f = CircularFilter::new(0.5);
    f.update(1.5);
    assert!(f.get().is_some());
    assert!((f.get().unwrap() - 1.5).abs() < 1e-10);
}

#[test]
fn rate_detector_first_sample_returns_zero() {
    let mut r = RateDetector::new(1.0);
    assert_eq!(r.update(10.0, 0.1), 0.0);
}

#[test]
fn rate_detector_constant_signal_returns_zero() {
    let mut r = RateDetector::new(1.0);
    r.update(5.0, 0.1);
    let rate = r.update(5.0, 0.1);
    assert!(rate.abs() < 1e-10);
}

#[test]
fn rate_detector_positive_ramp() {
    let mut r = RateDetector::new(1.0); // no smoothing
    r.update(0.0, 0.1);
    let rate = r.update(1.0, 0.1);
    // d/dt = (1.0 - 0.0) / 0.1 = 10.0
    assert!((rate - 10.0).abs() < 1e-10);
}

#[test]
fn rate_detector_negative_ramp() {
    let mut r = RateDetector::new(1.0);
    r.update(5.0, 0.1);
    let rate = r.update(4.0, 0.1);
    assert!((rate - (-10.0)).abs() < 1e-10);
}

#[test]
fn rate_detector_smoothing_reduces_spike() {
    let mut r_raw = RateDetector::new(1.0);
    let mut r_smooth = RateDetector::new(0.3);
    r_raw.update(0.0, 0.1);
    r_smooth.update(0.0, 0.1);
    let raw = r_raw.update(10.0, 0.1);
    let smooth = r_smooth.update(10.0, 0.1);
    // Both should detect the spike, but smooth version is attenuated
    assert!(smooth.abs() < raw.abs());
    assert!(smooth > 0.0);
}

#[test]
fn rate_detector_reset_returns_zero() {
    let mut r = RateDetector::new(1.0);
    r.update(0.0, 0.1);
    r.update(10.0, 0.1);
    r.reset();
    assert_eq!(r.update(5.0, 0.1), 0.0);
}

#[test]
fn normalize_positive_wrap() {
    let a = normalize_angle(PI + 0.1);
    assert!(a < 0.0);
    assert!((a - (-PI + 0.1)).abs() < 1e-10);
}

#[test]
fn normalize_negative_wrap() {
    let a = normalize_angle(-PI - 0.1);
    assert!(a > 0.0);
    assert!((a - (PI - 0.1)).abs() < 1e-10);
}

#[test]
fn normalize_passthrough() {
    assert!((normalize_angle(0.5) - 0.5).abs() < 1e-10);
}

#[test]
fn dead_zone_suppresses_small_error() {
    let mut pid = PidController::new(0.5);
    let cfg = default_cfg();
    assert_eq!(pid.compute(0.005, 0.0, 1.0, &cfg), 0.0);
}

#[test]
fn proportional_response() {
    let mut pid = PidController::new(0.5);
    let cfg = PidConfig {
        gain_p: 2.0,
        gain_i: 0.0,
        gain_d: 0.0,
        dead_zone_rad: 0.01,
        max_rudder_rad: 0.5,
    };
    let r = pid.compute(0.1, 0.0, 1.0, &cfg);
    assert!((r - 0.2).abs() < 1e-10);
}

#[test]
fn derivative_damps_response() {
    let mut pid1 = PidController::new(0.5);
    let mut pid2 = PidController::new(0.5);
    let cfg = PidConfig {
        gain_p: 2.0,
        gain_i: 0.0,
        gain_d: 1.0,
        dead_zone_rad: 0.01,
        max_rudder_rad: 1.0,
    };
    let r_growing = pid1.compute(0.1, 0.02, 1.0, &cfg);
    let r_steady = pid2.compute(0.1, 0.0, 1.0, &cfg);
    assert!(r_growing > r_steady);
}

#[test]
fn clamps_to_max_rudder() {
    let mut pid = PidController::new(0.5);
    let cfg = PidConfig {
        gain_p: 2.0,
        gain_i: 0.0,
        gain_d: 0.0,
        dead_zone_rad: 0.01,
        max_rudder_rad: 0.5,
    };
    let r = pid.compute(1.0, 0.0, 1.0, &cfg);
    assert!((r - 0.5).abs() < 1e-10);
}

#[test]
fn pd_negative_error_gives_negative_rudder() {
    let mut pid = PidController::new(0.5);
    let cfg = PidConfig {
        gain_p: 1.0,
        gain_i: 0.0,
        gain_d: 0.0,
        dead_zone_rad: 0.01,
        max_rudder_rad: 0.5,
    };
    let r = pid.compute(-0.2, 0.0, 1.0, &cfg);
    assert!(r < 0.0);
    assert!((r - (-0.2)).abs() < 1e-10);
}

#[test]
fn nan_error_returns_zero_rudder() {
    let mut pid = PidController::new(0.5);
    let cfg = default_cfg();
    assert_eq!(pid.compute(f64::NAN, 0.0, 1.0, &cfg), 0.0);
    assert_eq!(pid.compute(0.1, f64::NAN, 1.0, &cfg), 0.0);
    assert_eq!(pid.compute(f64::INFINITY, 0.0, 1.0, &cfg), 0.0);
    assert_eq!(pid.compute(0.1, 0.0, f64::NAN, &cfg), 0.0);
}

#[test]
fn integral_accumulates_over_ticks() {
    let mut pid = PidController::new(1.0);
    let cfg = PidConfig {
        gain_p: 0.0,
        gain_i: 1.0,
        gain_d: 0.0,
        dead_zone_rad: 0.01,
        max_rudder_rad: 1.0,
    };
    pid.compute(0.1, 0.0, 1.0, &cfg);
    pid.compute(0.1, 0.0, 1.0, &cfg);
    pid.compute(0.1, 0.0, 1.0, &cfg);
    assert!((pid.integral() - 0.3).abs() < 1e-10);
}

#[test]
fn integral_eliminates_steady_state_error() {
    let mut pid = PidController::new(1.0);
    let cfg = PidConfig {
        gain_p: 0.5,
        gain_i: 0.2,
        gain_d: 0.0,
        dead_zone_rad: 0.001,
        max_rudder_rad: 1.0,
    };
    // Simulate constant small error over many ticks
    let error = 0.05; // 3 deg - too small for P alone to overcome disturbance
    let mut total_output = 0.0;
    for _ in 0..100 {
        total_output = pid.compute(error, 0.0, 1.0, &cfg);
    }
    // After 100 ticks, integral has built up -> output much larger than P-only
    let p_only = cfg.gain_p * error;
    assert!(
        total_output > p_only * 2.0,
        "integral should boost output beyond P-only ({total_output} vs {p_only})"
    );
}

#[test]
fn anti_windup_prevents_integral_growth_at_saturation() {
    let mut pid = PidController::new(1.0);
    let cfg = PidConfig {
        gain_p: 2.0,
        gain_i: 1.0,
        gain_d: 0.0,
        dead_zone_rad: 0.01,
        max_rudder_rad: 0.5,
    };
    // Large error -> P alone saturates output -> integral should NOT grow
    for _ in 0..50 {
        pid.compute(1.0, 0.0, 1.0, &cfg);
    }
    // Integral should be much less than 50 * 1.0 because anti-windup kicks in
    assert!(
        pid.integral().abs() < 5.0,
        "anti-windup should limit integral, got {}",
        pid.integral()
    );
}

#[test]
fn integral_decays_in_dead_zone() {
    let mut pid = PidController::new(1.0);
    let cfg = default_cfg();
    // Build up some integral
    for _ in 0..20 {
        pid.compute(0.1, 0.0, 1.0, &cfg);
    }
    let integral_before = pid.integral();
    assert!(integral_before > 0.0);
    // Now enter dead zone
    for _ in 0..20 {
        pid.compute(0.005, 0.0, 1.0, &cfg);
    }
    assert!(
        pid.integral() < integral_before * 0.5,
        "integral should decay in dead zone"
    );
}

#[test]
fn reset_clears_integral() {
    let mut pid = PidController::new(1.0);
    let cfg = default_cfg();
    pid.compute(0.1, 0.0, 1.0, &cfg);
    pid.compute(0.1, 0.0, 1.0, &cfg);
    assert!(pid.integral() > 0.0);
    pid.reset();
    assert_eq!(pid.integral(), 0.0);
}

#[test]
fn integral_clamped_to_limit() {
    let mut pid = PidController::new(0.2); // small limit
    let cfg = PidConfig {
        gain_p: 0.0,
        gain_i: 1.0,
        gain_d: 0.0,
        dead_zone_rad: 0.001,
        max_rudder_rad: 10.0, // large so no saturation
    };
    for _ in 0..100 {
        pid.compute(0.1, 0.0, 1.0, &cfg);
    }
    assert!(
        pid.integral().abs() <= 0.2 + 1e-10,
        "integral should be clamped to limit, got {}",
        pid.integral()
    );
}

#[test]
fn scale_gains_at_nominal_unchanged() {
    let cfg = default_cfg();
    let scaled = scale_gains(&cfg, 2.5, 2.5);
    assert!((scaled.gain_p - cfg.gain_p).abs() < 1e-10);
    assert!((scaled.gain_i - cfg.gain_i).abs() < 1e-10);
    assert!((scaled.gain_d - cfg.gain_d).abs() < 1e-10);
}

#[test]
fn scale_gains_double_speed() {
    let cfg = default_cfg();
    let scaled = scale_gains(&cfg, 5.0, 2.5);
    assert!((scaled.gain_p - cfg.gain_p * 2.0).abs() < 1e-10);
    assert!((scaled.gain_d - cfg.gain_d / 2.0).abs() < 1e-10);
}

#[test]
fn scale_gains_clamped_at_extremes() {
    let cfg = default_cfg();
    // Very low speed -> ratio clamped to 0.3
    let low = scale_gains(&cfg, 0.1, 2.5);
    assert!((low.gain_p - cfg.gain_p * 0.3).abs() < 1e-10);
    // Very high speed -> ratio clamped to 3.0
    let high = scale_gains(&cfg, 100.0, 2.5);
    assert!((high.gain_p - cfg.gain_p * 3.0).abs() < 1e-10);
}

#[test]
fn scale_gains_disabled_when_nominal_zero() {
    let cfg = default_cfg();
    let scaled = scale_gains(&cfg, 5.0, 0.0);
    assert!((scaled.gain_p - cfg.gain_p).abs() < 1e-10);
}

#[test]
fn scale_gains_nan_speed_returns_unchanged() {
    let cfg = default_cfg();
    let scaled = scale_gains(&cfg, f64::NAN, 2.5);
    assert!((scaled.gain_p - cfg.gain_p).abs() < 1e-10);
}

#[test]
fn rate_limit_disabled_when_zero() {
    assert!((rate_limit(0.0, 1.0, 0.0, 1.0) - 1.0).abs() < 1e-10);
}

#[test]
fn rate_limit_constrains_positive_change() {
    let r = rate_limit(0.0, 1.0, 0.09, 1.0);
    assert!((r - 0.09).abs() < 1e-10);
}

#[test]
fn rate_limit_constrains_negative_change() {
    let r = rate_limit(0.0, -1.0, 0.09, 1.0);
    assert!((r - (-0.09)).abs() < 1e-10);
}

#[test]
fn rate_limit_allows_small_change() {
    let r = rate_limit(0.0, 0.05, 0.09, 1.0);
    assert!((r - 0.05).abs() < 1e-10);
}

#[test]
fn rate_limit_scales_with_dt() {
    // At dt=0.1 (10 Hz), max delta = 0.09 * 0.1 = 0.009
    let r = rate_limit(0.0, 1.0, 0.09, 0.1);
    assert!((r - 0.009).abs() < 1e-10);
}

#[test]
fn recovery_activates_on_large_error() {
    let mut r = RecoveryState::new();
    assert!(!r.is_active());
    let active = r.update(0.5, 0.35, 15);
    assert!(active);
    assert!(r.is_active());
}

#[test]
fn recovery_does_not_activate_below_threshold() {
    let mut r = RecoveryState::new();
    let active = r.update(0.2, 0.35, 15);
    assert!(!active);
}

#[test]
fn recovery_deactivates_on_low_error() {
    let mut r = RecoveryState::new();
    r.update(0.5, 0.35, 15); // activate
    // Error drops to 10% of threshold -> below 30% -> deactivate
    let active = r.update(0.03, 0.35, 15);
    assert!(!active);
}

#[test]
fn recovery_deactivates_on_timeout() {
    let mut r = RecoveryState::new();
    // Activation call consumes tick 1 (ticks_remaining: 3->2)
    assert!(r.update(0.5, 0.35, 3));
    // Tick 2 (ticks_remaining: 2->1)
    assert!(r.update(0.4, 0.35, 3));
    // Tick 3 (ticks_remaining: 1->0 -> deactivate)
    assert!(!r.update(0.4, 0.35, 3));
}

#[test]
fn recovery_apply_boosts_gains() {
    let mut r = RecoveryState::new();
    let cfg = default_cfg();
    r.update(0.5, 0.35, 15);
    let boosted = r.apply(&cfg, 2.0);
    assert!((boosted.gain_p - cfg.gain_p * 2.0).abs() < 1e-10);
    assert!((boosted.gain_d - cfg.gain_d * 2.0).abs() < 1e-10);
    assert_eq!(boosted.gain_i, 0.0); // I-term disabled
}

#[test]
fn recovery_apply_passthrough_when_inactive() {
    let r = RecoveryState::new();
    let cfg = default_cfg();
    let result = r.apply(&cfg, 2.0);
    assert!((result.gain_p - cfg.gain_p).abs() < 1e-10);
}

#[test]
fn recovery_disabled_when_threshold_zero() {
    let mut r = RecoveryState::new();
    assert!(!r.update(1.0, 0.0, 15));
}

#[test]
fn recovery_reset_clears_state() {
    let mut r = RecoveryState::new();
    r.update(0.5, 0.35, 15);
    assert!(r.is_active());
    r.reset();
    assert!(!r.is_active());
}

#[test]
fn feedback_no_sensor_returns_none() {
    let mut m = RudderFeedbackMonitor::new();
    assert!(m.update(0.1, None, 0.087, 30).is_none());
    assert!(!m.is_alarm_active());
}

#[test]
fn feedback_disabled_when_threshold_zero() {
    let mut m = RudderFeedbackMonitor::new();
    assert!(m.update(0.1, Some(0.0), 0.0, 30).is_none());
}

#[test]
fn feedback_no_alarm_when_matching() {
    let mut m = RudderFeedbackMonitor::new();
    for _ in 0..50 {
        assert!(m.update(0.1, Some(0.1), 0.087, 30).is_none());
    }
    assert!(!m.is_alarm_active());
}

#[test]
fn feedback_alarm_fires_after_timeout() {
    let mut m = RudderFeedbackMonitor::new();
    // 29 mismatches - no alarm yet
    for _ in 0..29 {
        assert!(m.update(0.3, Some(0.0), 0.087, 30).is_none());
    }
    assert!(!m.is_alarm_active());
    // 30th mismatch triggers alarm
    assert_eq!(m.update(0.3, Some(0.0), 0.087, 30), Some(true));
    assert!(m.is_alarm_active());
}

#[test]
fn feedback_alarm_does_not_re_fire() {
    let mut m = RudderFeedbackMonitor::new();
    for _ in 0..30 {
        m.update(0.3, Some(0.0), 0.087, 30);
    }
    assert!(m.is_alarm_active());
    // Further mismatches return None (alarm already active)
    assert!(m.update(0.3, Some(0.0), 0.087, 30).is_none());
}

#[test]
fn feedback_alarm_clears_on_match() {
    let mut m = RudderFeedbackMonitor::new();
    for _ in 0..30 {
        m.update(0.3, Some(0.0), 0.087, 30);
    }
    assert!(m.is_alarm_active());
    // Rudder catches up -> alarm clears
    assert_eq!(m.update(0.1, Some(0.1), 0.087, 30), Some(false));
    assert!(!m.is_alarm_active());
}

#[test]
fn feedback_mismatch_counter_resets_on_match() {
    let mut m = RudderFeedbackMonitor::new();
    // Build up 20 mismatch ticks
    for _ in 0..20 {
        m.update(0.3, Some(0.0), 0.087, 30);
    }
    // One matching tick resets the counter
    m.update(0.1, Some(0.1), 0.087, 30);
    // Need full 30 again to trigger
    for i in 0..30 {
        let result = m.update(0.3, Some(0.0), 0.087, 30);
        if i < 29 {
            assert!(result.is_none());
        } else {
            assert_eq!(result, Some(true));
        }
    }
}

#[test]
fn feedback_reset_clears_alarm() {
    let mut m = RudderFeedbackMonitor::new();
    for _ in 0..30 {
        m.update(0.3, Some(0.0), 0.087, 30);
    }
    assert!(m.is_alarm_active());
    m.reset();
    assert!(!m.is_alarm_active());
}

#[test]
fn plausibility_first_sample_always_ok() {
    let mut h = HeadingPlausibility::new(3);
    match h.check(1.5, 1.5, 0.1) {
        PlausibilityResult::Plausible(v) => assert!((v - 1.5).abs() < 1e-10),
        other => panic!("expected Ok, got {other:?}"),
    }
}

#[test]
fn plausibility_normal_change_passes() {
    let mut h = HeadingPlausibility::new(3);
    h.check(0.0, 1.5, 0.1); // init
    // 0.1 rad change in 0.1s = 1.0 rad/s, under max 1.5
    match h.check(0.1, 1.5, 0.1) {
        PlausibilityResult::Plausible(v) => assert!((v - 0.1).abs() < 1e-10),
        other => panic!("expected Ok, got {other:?}"),
    }
}

#[test]
fn plausibility_single_glitch_returns_prev() {
    let mut h = HeadingPlausibility::new(3);
    h.check(0.0, 1.5, 0.1); // init
    // 2.0 rad change in 0.1s = 20 rad/s, way over max 1.5
    match h.check(2.0, 1.5, 0.1) {
        PlausibilityResult::Glitch(prev) => assert!((prev - 0.0).abs() < 1e-10),
        other => panic!("expected Glitch, got {other:?}"),
    }
}

#[test]
fn plausibility_consecutive_glitches_cause_failure() {
    let mut h = HeadingPlausibility::new(3);
    h.check(0.0, 1.5, 0.1); // init
    // Three consecutive glitches -> SensorFailure
    assert!(matches!(
        h.check(2.0, 1.5, 0.1),
        PlausibilityResult::Glitch(_)
    ));
    assert!(matches!(
        h.check(2.0, 1.5, 0.1),
        PlausibilityResult::Glitch(_)
    ));
    assert!(matches!(
        h.check(2.0, 1.5, 0.1),
        PlausibilityResult::SensorFailure
    ));
}

#[test]
fn plausibility_glitch_count_resets_on_ok() {
    let mut h = HeadingPlausibility::new(3);
    h.check(0.0, 1.5, 0.1); // init
    // Two glitches
    assert!(matches!(
        h.check(2.0, 1.5, 0.1),
        PlausibilityResult::Glitch(_)
    ));
    assert!(matches!(
        h.check(2.0, 1.5, 0.1),
        PlausibilityResult::Glitch(_)
    ));
    // Return to plausible heading -> resets count
    assert!(matches!(h.check(0.05, 1.5, 0.1), PlausibilityResult::Plausible(_)));
    // Two more glitches - still no failure (counter was reset)
    assert!(matches!(
        h.check(2.0, 1.5, 0.1),
        PlausibilityResult::Glitch(_)
    ));
    assert!(matches!(
        h.check(2.0, 1.5, 0.1),
        PlausibilityResult::Glitch(_)
    ));
    // Third -> now failure
    assert!(matches!(
        h.check(2.0, 1.5, 0.1),
        PlausibilityResult::SensorFailure
    ));
}

#[test]
fn plausibility_reset_clears_state() {
    let mut h = HeadingPlausibility::new(3);
    h.check(0.0, 1.5, 0.1);
    h.check(2.0, 1.5, 0.1); // glitch
    h.reset();
    // After reset, next sample is "first" again -> Ok
    match h.check(2.0, 1.5, 0.1) {
        PlausibilityResult::Plausible(v) => assert!((v - 2.0).abs() < 1e-10),
        other => panic!("expected Ok after reset, got {other:?}"),
    }
}

#[test]
fn plausibility_pi_boundary_wrap() {
    // Heading near +/-pi boundary: 3.1 -> -3.1 is a small change (~0.08 rad),
    // not a 6.2 rad jump.
    let mut h = HeadingPlausibility::new(3);
    h.check(3.1, 1.5, 0.1); // init near +pi
    // -3.1 is only ~0.083 rad away (wrapping) -> 0.83 rad/s, under max 1.5
    match h.check(-3.1, 1.5, 0.1) {
        PlausibilityResult::Plausible(v) => assert!((v - (-3.1)).abs() < 1e-10),
        other => panic!("expected Ok at +/-pi boundary, got {other:?}"),
    }
}

#[test]
fn quality_fresh_sensor_is_one() {
    assert!((sensor_quality(0.0, 0.5) - 1.0).abs() < 1e-10);
}

#[test]
fn quality_at_half_life() {
    assert!((sensor_quality(0.5, 0.5) - 0.5).abs() < 1e-10);
}

#[test]
fn quality_stale_is_low() {
    let q = sensor_quality(2.0, 0.5); // 4 half-lives
    assert!(q < 0.1, "expected < 0.1, got {q}");
    assert!(q > 0.0);
}

#[test]
fn quality_nan_returns_zero() {
    assert_eq!(sensor_quality(f64::NAN, 0.5), 0.0);
    assert_eq!(sensor_quality(0.0, f64::NAN), 0.0);
}

#[test]
fn quality_negative_age_returns_one() {
    assert!((sensor_quality(-1.0, 0.5) - 1.0).abs() < 1e-10);
}

#[test]
fn quality_disabled_when_half_life_zero() {
    assert!((sensor_quality(100.0, 0.0) - 1.0).abs() < 1e-10);
}

#[test]
fn yaw_rate_within_bound() {
    assert_eq!(validate_yaw_rate(Some(0.5), 0.8), Some(0.5));
}

#[test]
fn yaw_rate_exceeds_bound() {
    assert_eq!(validate_yaw_rate(Some(1.0), 0.8), None);
}

#[test]
fn yaw_rate_none_passthrough() {
    assert_eq!(validate_yaw_rate(None, 0.8), None);
}

#[test]
fn yaw_rate_nan_returns_none() {
    assert_eq!(validate_yaw_rate(Some(f64::NAN), 0.8), None);
}

#[test]
fn yaw_rate_negative_within_bound() {
    assert_eq!(validate_yaw_rate(Some(-0.5), 0.8), Some(-0.5));
}

#[test]
fn yaw_rate_exact_bound_passes() {
    assert_eq!(validate_yaw_rate(Some(0.8), 0.8), Some(0.8));
}

/// Numbers from `lo` to `hi`, evenly spaced.
fn span(lo: f64, hi: f64, count: usize) -> Vec<f64> {
    (0..count).map(|i| lo + (hi - lo) * i as f64 / (count - 1) as f64).collect()
}

#[test]
fn lpf_bounded_by_prev_and_input() {
    for prev in span(-1000.0, 999.0, 9) {
        for input in span(-1000.0, 999.0, 9) {
            for alpha in span(0.01, 0.99, 5) {
                let mut f = LowPassFilter::new(alpha);
                f.update(prev);
                let out = f.update(input);
                let lo = prev.min(input);
                let hi = prev.max(input);
                assert!(out >= lo - 1e-10 && out <= hi + 1e-10);
            }
        }
    }
}

#[test]
fn lpf_after_reset_next_equals_input() {
    for prev in span(-1000.0, 999.0, 9) {
        for next in span(-1000.0, 999.0, 9) {
            for alpha in span(0.01, 0.99, 5) {
                let mut f = LowPassFilter::new(alpha);
                f.update(prev);
                f.reset();
                let out = f.update(next);
                assert!((out - next).abs() < 1e-12);
            }
        }
    }
}

#[test]
fn circular_output_in_range() {
    for a1 in span(-PI, PI, 13) {
        for a2 in span(-PI, PI, 13) {
            for alpha in span(0.01, 0.99, 5) {
                let mut f = CircularFilter::new(alpha);
                f.update(a1);
                let out = f.update(a2);
                assert!(
                    (-PI - 1e-10..=PI + 1e-10).contains(&out),
                    "CircularFilter output {out} not in [-pi, pi]"
                );
            }
        }
    }
}

#[test]
fn normalize_always_in_range() {
    for a in span(-1e6, 1e6, 41) {
        let r = normalize_angle(a);
        assert!((-PI..=PI).contains(&r), "normalize_angle({a}) = {r}");
    }
}

#[test]
fn normalize_idempotent() {
    for a in span(-1e6, 1e6, 41) {
        let once = normalize_angle(a);
        let twice = normalize_angle(once);
        assert!((once - twice).abs() < 1e-12);
    }
}

#[test]
fn pid_output_always_clamped() {
    for error in span(-PI, PI, 5) {
        for d_error in span(-10.0, 10.0, 5) {
            for gain in span(0.0, 10.0, 4) {
                for gain_i in span(0.0, 2.0, 3) {
                    for dead_zone in span(0.0, 0.1, 2) {
                        for max_rudder in span(0.01, PI, 4) {
                            let mut pid = PidController::new(1.0);
                            let cfg = PidConfig {
                                gain_p: gain,
                                gain_i,
                                gain_d: 10.0 - gain,
                                dead_zone_rad: dead_zone,
                                max_rudder_rad: max_rudder,
                            };
                            let r = pid.compute(error, d_error, 1.0, &cfg);
                            assert!(
                                r >= -max_rudder - 1e-10 && r <= max_rudder + 1e-10,
                                "rudder {r} out of [{}, {}]",
                                -max_rudder,
                                max_rudder
                            );
                        }
                    }
                }
            }
        }
    }
}

#[test]
fn dead_zone_always_zero() {
    for error in span(-0.05, 0.05, 21) {
        for d_error in span(-1.0, 1.0, 21) {
            let mut pid = PidController::new(1.0);
            let cfg = PidConfig {
                gain_p: 1.0,
                gain_i: 0.05,
                gain_d: 0.5,
                dead_zone_rad: 0.1, // larger than error range
                max_rudder_rad: PI,
            };
            let r = pid.compute(error, d_error, 1.0, &cfg);
            assert_eq!(r, 0.0);
        }
    }
}

#[test]
fn rate_limit_output_between_current_and_target() {
    for current in span(-1.0, 1.0, 11) {
        for target in span(-1.0, 1.0, 11) {
            for max_rate in span(0.01, 1.0, 5) {
                let r = rate_limit(current, target, max_rate, 1.0);
                let lo = current.min(target);
                let hi = current.max(target);
                assert!(
                    r >= lo - 1e-10 && r <= hi + 1e-10,
                    "rate_limit({current}, {target}, {max_rate}) = {r} not in [{lo}, {hi}]"
                );
            }
        }
    }
}

#[test]
fn sensor_quality_always_in_unit_range() {
    for age in span(0.0, 100.0, 21) {
        for half_life in span(0.01, 10.0, 21) {
            let q = sensor_quality(age, half_life);
            assert!((0.0..=1.0).contains(&q), "quality({age}, {half_life}) = {q}");
        }
    }
}

#[test]
fn sensor_quality_monotonically_decreasing() {
    for age1 in span(0.0, 50.0, 11) {
        for age2 in span(0.0, 50.0, 11) {
            for half_life in span(0.01, 10.0, 5) {
                let (a, b) = if age1 <= age2 { (age1, age2) } else { (age2, age1) };
                let q_a = sensor_quality(a, half_life);
                let q_b = sensor_quality(b, half_life);
                assert!(
                    q_a >= q_b - 1e-10,
                    "quality({a})={q_a} < quality({b})={q_b}, should be monotone"
                );
            }
        }
    }
}

#[test]
fn rate_detector_without_time_has_no_rate() {
    let mut r = RateDetector::new(1.0);
    r.update(0.0, 0.1);
    assert_eq!(r.update(1.0, 0.0), 0.0);
}

#[test]
fn heading_glitch_without_time_is_detected() {
    let mut h = HeadingPlausibility::new(2);
    h.check(0.0, 1.5, 0.1);
    assert!(matches!(h.check(0.01, 1.5, -1.0), PlausibilityResult::Glitch(_)));
}

#[test]
fn on_course_returns_zero_rudder() {
    let mut pid = PidController::new(0.5);
    let (rudder, error) = heading_compute(1.0, 1.0, 0.0, 1.0, None, &mut pid, &default_cfg());
    assert_eq!(rudder, 0.0);
    assert!(error.abs() < 1e-10);
}

#[test]
fn positive_error_gives_positive_rudder() {
    let mut pid = PidController::new(0.5);
    let (rudder, _) = heading_compute(0.0, 0.5, 0.0, 1.0, None, &mut pid, &default_cfg());
    assert!(rudder > 0.0);
}

#[test]
fn heading_negative_error_gives_negative_rudder() {
    let mut pid = PidController::new(0.5);
    let (rudder, _) = heading_compute(0.5, 0.0, 0.0, 1.0, None, &mut pid, &default_cfg());
    assert!(rudder < 0.0);
}

#[test]
fn error_wraps_at_pi_boundary() {
    let mut pid = PidController::new(0.5);
    let (_, error) = heading_compute(
        -PI + 0.035,
        PI - 0.035,
        0.0,
        1.0,
        None,
        &mut pid,
        &default_cfg(),
    );
    assert!(error.abs() < 0.1, "error should be ~2 deg, got {error:.4} rad");
}

#[test]
fn d_term_finite_diff_damps_converging_response() {
    let cfg = default_cfg();
    let mut pid1 = PidController::new(0.5);
    let mut pid2 = PidController::new(0.5);
    let (r_converging, _) = heading_compute(0.0, 0.1, 0.2, 1.0, None, &mut pid1, &cfg);
    let (r_steady, _) = heading_compute(0.0, 0.1, 0.1, 1.0, None, &mut pid2, &cfg);
    assert!(r_converging < r_steady);
}

#[test]
fn d_term_yaw_rate_damps_converging_response() {
    let cfg = default_cfg();
    let mut pid1 = PidController::new(0.5);
    let mut pid2 = PidController::new(0.5);
    let (r_with_rate, _) = heading_compute(0.0, 0.1, 0.0, 1.0, Some(0.05), &mut pid1, &cfg);
    let (r_no_rate, _) = heading_compute(0.0, 0.1, 0.0, 1.0, Some(0.0), &mut pid2, &cfg);
    assert!(r_with_rate < r_no_rate);
}

#[test]
fn yaw_rate_d_term_preferred_over_finite_diff() {
    let cfg = default_cfg();
    let mut pid1 = PidController::new(0.5);
    let mut pid2 = PidController::new(0.5);
    let (r_rate, _) = heading_compute(0.0, 0.1, 0.0, 1.0, Some(0.0), &mut pid1, &cfg);
    let (r_diff, _) = heading_compute(0.0, 0.1, 0.0, 1.0, None, &mut pid2, &cfg);
    assert!(r_diff > r_rate);
}

#[test]
fn new_error_is_stored_for_next_tick() {
    let mut pid = PidController::new(0.5);
    let (_, new_error) = heading_compute(0.0, 0.3, 0.0, 1.0, None, &mut pid, &default_cfg());
    assert!((new_error - 0.3).abs() < 1e-10);
}

fn make_input(heading: f64, btw: f64, xte_m: f64, lookahead_m: f64) -> modes::RouteInput {
    modes::RouteInput {
        current_heading: r64(heading),
        btw: r64(btw),
        xte_m: r64(xte_m),
        lookahead_m: r64(lookahead_m),
        prev_error: r64(0.0),
        dt: r64(0.1),
        yaw_rate: None,
    }
}

fn route_compute(
    input: &modes::RouteInput,
    pid: &mut PidController,
    cfg: &PidConfig,
) -> (f64, f64) {
    steer(&modes::route(*input), float(input.dt), pid, cfg)
}

#[test]
fn route_corrects_by_the_cross_track_angle() {
    let formulas = modes::route(make_input(0.0, 0.2, 50.0, 100.0));
    assert!((eval(&formulas.error) - (0.2 + 0.5_f64.atan())).abs() < 1e-12);
}

#[test]
fn wind_mode_steers_by_the_filtered_angle() {
    let mut filter = CircularFilter::new(0.5);
    filter.update(0.4);
    let formulas =
        modes::wind(&filter.inner, r64(0.6), r64(0.7), r64(0.0), r64(0.1), None);
    let filtered = filter.update(0.6);
    assert!((eval(&formulas.error) - (0.7 - filtered)).abs() < 1e-12);
    assert!((eval(&formulas.d_error) - (0.7 - filtered) / 0.1).abs() < 1e-9);
}

#[test]
fn on_track_and_on_heading_returns_zero() {
    let mut pid = PidController::new(0.5);
    let cfg = default_cfg();
    let (rudder, error) = route_compute(&make_input(0.0, 0.0, 0.0, 100.0), &mut pid, &cfg);
    assert_eq!(rudder, 0.0);
    assert!(error.abs() < 1e-10);
}

#[test]
fn xte_starboard_corrects_to_port() {
    let mut pid = PidController::new(0.5);
    let cfg = default_cfg();
    let (rudder, _) = route_compute(&make_input(0.0, 0.0, 50.0, 100.0), &mut pid, &cfg);
    assert!(
        rudder > 0.0,
        "should steer toward track when starboard of it, got {rudder}"
    );
}

#[test]
fn xte_port_corrects_to_starboard() {
    let mut pid = PidController::new(0.5);
    let cfg = default_cfg();
    let (rudder, _) = route_compute(&make_input(0.0, 0.0, -50.0, 100.0), &mut pid, &cfg);
    assert!(
        rudder < 0.0,
        "should steer toward track when port of it, got {rudder}"
    );
}

#[test]
fn heading_correction_bounded_by_atan() {
    let mut pid = PidController::new(0.5);
    let cfg = default_cfg();
    let (_, error) = route_compute(&make_input(0.0, 0.0, 10000.0, 100.0), &mut pid, &cfg);
    assert!(
        error.abs() < PI / 2.0 + 0.1,
        "heading correction should be bounded by atan"
    );
}

#[test]
fn lookahead_floor_prevents_division_issues() {
    let mut pid = PidController::new(0.5);
    let cfg = default_cfg();
    let (rudder, _) = route_compute(&make_input(0.0, 0.0, 10.0, 0.001), &mut pid, &cfg);
    assert!(rudder.is_finite());
}

#[test]
fn saturated_output_leaves_a_zero_integral_alone() {
    let cfg = PidConfig {
        gain_p: 2.0,
        gain_i: 1.0,
        gain_d: 0.0,
        dead_zone_rad: 0.01,
        max_rudder_rad: 0.5,
    };
    for error in [-1.0, 1.0] {
        let mut pid = PidController::new(1.0);
        assert_eq!(pid.compute(error, 0.0, 1.0, &cfg), 0.5 * error);
        assert_eq!(pid.integral(), 0.0);
    }
}

#[test]
fn saturated_output_lets_the_integral_unwind() {
    let mut pid = PidController::new(1.0);
    let gentle = PidConfig {
        gain_p: 0.0,
        gain_i: 0.1,
        gain_d: 0.0,
        dead_zone_rad: 0.01,
        max_rudder_rad: 0.5,
    };
    pid.compute(0.8, 0.0, 1.0, &gentle);
    assert_eq!(pid.integral(), 0.8);
    let strong = PidConfig { gain_p: 2.0, ..gentle };
    pid.compute(1.0, 0.0, 1.0, &strong);
    assert_eq!(pid.integral(), 0.8);
    pid.compute(-0.5, 0.0, 1.0, &strong);
    assert!((pid.integral() - 0.3).abs() < 1e-12);
}
