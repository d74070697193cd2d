#![allow(dead_code)]
use signalk_plugins::autopilot::provider::{AutopilotData, ProviderError, TackDirection};
use signalk_plugins::autopilot::state::{AutopilotConfig, AutopilotMode, AutopilotState};
use signalk_plugins::autopilot::tick::{
    begin_tick, check_heading, control_interval, control_plan, finish_tick, output_every,
    recovery_plan, rudder_plan, ControlLoop, ControlValues, HeadingStep, RudderValues, SteerValues,
};
use signalk_plugins::expr::Expr;
use signalk_plugins::incoming::{Incoming, IncomingUpdate, Reading};
use signalk_plugins::json::{Json, Member};
use signalk_plugins::number::Real;
use signalk_plugins::signalk::{Delta, Source, Value};
use std::cell::RefCell;

fn r64(x: f64) -> Real {
    Real { bits: x.to_bits() }
}

fn float(r: Real) -> f64 {
    f64::from_bits(r.bits)
}

/// Carries out a formula.
fn eval(e: &Expr) -> f64 {
    let half: f64 = std::f64::consts::PI;
    match e {
        Expr::Lit(r) => float(*r),
        Expr::Single(bits) => f32::from_bits(*bits) as f64,
        Expr::Int(i) => *i as f64,
        Expr::Uint(u) => *u as f64,
        Expr::Neg(a) => -eval(a),
        Expr::Abs(a) => eval(a).abs(),
        Expr::Sqrt(a) => eval(a).sqrt(),
        Expr::Sin(a) => eval(a).sin(),
        Expr::Cos(a) => eval(a).cos(),
        Expr::Asin(a) => eval(a).asin(),
        Expr::Atan(a) => eval(a).atan(),
        Expr::Exp(a) => eval(a).exp(),
        Expr::Floor(a) => eval(a).floor(),
        Expr::Round(a) => eval(a).round(),
        Expr::Signum(a) => eval(a).signum(),
        Expr::Wrap(a) => {
            let mut x = eval(a);
            while x > half {
                x -= 2.0 * half;
            }
            while x < -half {
                x += 2.0 * half;
            }
            x
        }
        Expr::ToRadians(a) => eval(a).to_radians(),
        Expr::ToDegrees(a) => eval(a).to_degrees(),
        Expr::ToSingle(a) => eval(a) as f32 as f64,
        Expr::ToWord(a) => eval(a) as u32 as f64,
        Expr::Add(a, b) => eval(a) + eval(b),
        Expr::Sub(a, b) => eval(a) - eval(b),
        Expr::Mul(a, b) => eval(a) * eval(b),
        Expr::Div(a, b) => eval(a) / eval(b),
        Expr::Rem(a, b) => eval(a) % eval(b),
        Expr::RemEuclid(a, b) => eval(a).rem_euclid(eval(b)),
        Expr::Atan2(a, b) => eval(a).atan2(eval(b)),
        Expr::Powf(a, b) => eval(a).powf(eval(b)),
        Expr::Min(a, b) => eval(a).min(eval(b)),
        Expr::Max(a, b) => eval(a).max(eval(b)),
        Expr::Clamp(a, lo, hi) => eval(a).clamp(eval(lo), eval(hi)),
        Expr::IfLess(a, b, yes, no) => {
            if eval(a) < eval(b) {
                eval(yes)
            } else {
                eval(no)
            }
        }
    }
}

fn jnum(x: f64) -> Json {
    Json::Number(r64(x))
}

fn jtext(s: &str) -> Json {
    Json::Text(s.to_string())
}

fn jobj(members: Vec<(&str, Json)>) -> Json {
    let mut list = Vec::new();
    for (key, value) in members {
        list.push(Member { key: key.to_string(), value });
    }
    Json::Object(list)
}

fn reading(path: &str, value: Json) -> Reading {
    Reading { path: path.to_string(), value }
}

struct Provider {
    state: RefCell<AutopilotState>,
}

fn make_provider(state: AutopilotState) -> Provider {
    Provider { state: RefCell::new(state) }
}

impl Provider {
    fn get_data(&self) -> Result<AutopilotData, ProviderError> {
        Ok(self.state.borrow().get_data())
    }

    fn get_state(&self) -> Result<&'static str, ProviderError> {
        Ok(self.state.borrow().get_state())
    }

    fn set_state(&self, state: &str) -> Result<(), ProviderError> {
        self.state.borrow_mut().set_state(state)
    }

    fn engage(&self) -> Result<(), ProviderError> {
        self.state.borrow_mut().engage();
        Ok(())
    }

    fn disengage(&self) -> Result<(), ProviderError> {
        self.state.borrow_mut().disengage();
        Ok(())
    }

    fn get_mode(&self) -> Result<&'static str, ProviderError> {
        Ok(self.state.borrow().mode.as_str())
    }

    fn set_mode(&self, mode: &str) -> Result<(), ProviderError> {
        self.state.borrow_mut().set_mode(mode)
    }

    fn get_target(&self) -> Result<Option<f64>, ProviderError> {
        Ok(self.state.borrow().target_rad.map(float))
    }

    fn set_target(&self, value: f64) -> Result<(), ProviderError> {
        self.state.borrow_mut().set_target(r64(value));
        Ok(())
    }

    fn adjust_target(&self, change: f64) -> Result<(), ProviderError> {
        let target = eval(&self.state.borrow().adjust_target(r64(change)));
        self.set_target(target)
    }

    fn tack(&self, direction: TackDirection) -> Result<(), ProviderError> {
        let change = eval(&self.state.borrow().manoeuvre_change(direction));
        self.state.borrow_mut().tack(direction, r64(change))
    }

    fn gybe(&self, direction: TackDirection) -> Result<(), ProviderError> {
        let change = eval(&self.state.borrow().manoeuvre_change(direction));
        self.state.borrow_mut().gybe(direction, r64(change))
    }

    fn dodge(&self, offset: Option<f64>) -> Result<(), ProviderError> {
        self.state.borrow_mut().dodge(offset.map(r64));
        Ok(())
    }
}

fn compass_state() -> AutopilotState {
    let mut st = AutopilotState::new(AutopilotMode::Compass);
    st.enabled = true;
    st.target_rad = Some(r64(1.0));
    st
}

fn wind_state() -> AutopilotState {
    let mut st = AutopilotState::new(AutopilotMode::Wind);
    st.enabled = true;
    st.target_rad = Some(r64(0.7)); // ~40 deg starboard tack
    st
}

#[test]
fn get_state_enabled() {
    let p = make_provider(compass_state());
    assert_eq!(p.get_state().unwrap(), "enabled");
}

#[test]
fn get_state_disabled() {
    let mut st = compass_state();
    st.enabled = false;
    let p = make_provider(st);
    assert_eq!(p.get_state().unwrap(), "disabled");
}

#[test]
fn set_state_enables() {
    let mut st = compass_state();
    st.enabled = false;
    let p = make_provider(st);
    p.set_state("enabled").unwrap();
    assert!(p.state.borrow().enabled);
}

#[test]
fn set_state_disables() {
    let p = make_provider(compass_state());
    p.set_state("disabled").unwrap();
    assert!(!p.state.borrow().enabled);
}

#[test]
fn set_state_unknown_returns_error() {
    let p = make_provider(compass_state());
    assert!(p.set_state("sailing").is_err());
}

#[test]
fn engage_sets_enabled() {
    let mut st = compass_state();
    st.enabled = false;
    let p = make_provider(st);
    p.engage().unwrap();
    assert!(p.state.borrow().enabled);
}

#[test]
fn disengage_clears_enabled_and_tick() {
    let p = make_provider(compass_state());
    p.disengage().unwrap();
    let st = p.state.borrow();
    assert!(!st.enabled);
    assert!(st.last_tick_at.is_none());
}

#[test]
fn get_mode_compass() {
    let p = make_provider(compass_state());
    assert_eq!(p.get_mode().unwrap(), "compass");
}

#[test]
fn set_mode_wind() {
    let p = make_provider(compass_state());
    p.set_mode("wind").unwrap();
    assert_eq!(p.state.borrow().mode, AutopilotMode::Wind);
}

#[test]
fn set_mode_resets_d_term() {
    let mut st = compass_state();
    st.last_error_rad = r64(0.5);
    let p = make_provider(st);
    p.set_mode("wind").unwrap();
    assert_eq!(p.state.borrow().last_error_rad, r64(0.0));
}

#[test]
fn set_mode_unknown_returns_not_found() {
    let p = make_provider(compass_state());
    assert!(p.set_mode("magic").unwrap_err().is_not_found());
}

#[test]
fn get_target_returns_value() {
    let p = make_provider(compass_state()); // target = 1.0
    assert!((p.get_target().unwrap().unwrap() - 1.0).abs() < 1e-10);
}

#[test]
fn set_target_updates_value() {
    let p = make_provider(compass_state());
    p.set_target(std::f64::consts::PI).unwrap();
    assert!((float(p.state.borrow().target_rad.unwrap()) - std::f64::consts::PI).abs() < 1e-10);
}

#[test]
fn adjust_target_adds_delta() {
    let p = make_provider(compass_state()); // target = 1.0
    p.adjust_target(0.1).unwrap();
    assert!((float(p.state.borrow().target_rad.unwrap()) - 1.1).abs() < 1e-10);
}

#[test]
fn adjust_target_wraps_at_pi() {
    let mut st = compass_state();
    st.target_rad = Some(r64(std::f64::consts::PI - 0.05));
    let p = make_provider(st);
    p.adjust_target(0.1).unwrap();
    // Should wrap to negative side
    assert!(float(p.state.borrow().target_rad.unwrap()) < 0.0);
}

#[test]
fn tack_requires_wind_mode() {
    let p = make_provider(compass_state());
    assert!(
        p.tack(TackDirection::Port)
            .unwrap_err()
            .is_not_found()
    );
}

#[test]
fn tack_port_sets_negative_target() {
    let p = make_provider(wind_state()); // target = +0.7 (starboard)
    p.tack(TackDirection::Port).unwrap();
    assert!(float(p.state.borrow().target_rad.unwrap()) < 0.0);
}

#[test]
fn tack_starboard_sets_positive_target() {
    let mut st = wind_state();
    st.target_rad = Some(r64(-0.7)); // port tack
    let p = make_provider(st);
    p.tack(TackDirection::Starboard).unwrap();
    assert!(float(p.state.borrow().target_rad.unwrap()) > 0.0);
}

#[test]
fn tack_already_on_that_tack_returns_error() {
    let p = make_provider(wind_state()); // positive = starboard
    assert!(p.tack(TackDirection::Starboard).is_err());
}

#[test]
fn tack_resets_d_term() {
    let mut st = wind_state();
    st.last_error_rad = r64(0.5);
    let p = make_provider(st);
    p.tack(TackDirection::Port).unwrap();
    assert_eq!(p.state.borrow().last_error_rad, r64(0.0));
}

#[test]
fn gybe_requires_wind_mode() {
    let p = make_provider(compass_state());
    assert!(
        p.gybe(TackDirection::Port)
            .unwrap_err()
            .is_not_found()
    );
}

#[test]
fn dodge_sets_offset() {
    let p = make_provider(compass_state());
    p.dodge(Some(0.1)).unwrap();
    assert!((float(p.state.borrow().dodge_offset_rad.unwrap()) - 0.1).abs() < 1e-10);
}

#[test]
fn dodge_none_clears_offset() {
    let p = make_provider(compass_state());
    p.dodge(Some(0.1)).unwrap();
    p.dodge(None).unwrap();
    assert!(p.state.borrow().dodge_offset_rad.is_none());
}

#[test]
fn get_data_includes_stable_modes() {
    let p = make_provider(compass_state());
    let data = p.get_data().unwrap();
    assert!(data.modes.contains(&"compass"));
    assert!(data.modes.contains(&"wind"));
}

#[test]
fn get_data_includes_experimental_route_mode() {
    let p = make_provider(compass_state());
    let data = p.get_data().unwrap();
    assert!(data.modes.contains(&"route"));
}

#[test]
fn get_data_engaged_when_enabled() {
    let p = make_provider(compass_state());
    assert!(p.get_data().unwrap().engaged);
}

#[test]
fn default_config_pid_gains() {
    let cfg = AutopilotConfig::default();
    assert_eq!(float(cfg.gain_p), 1.0);
    assert_eq!(float(cfg.gain_i), 0.05);
    assert_eq!(float(cfg.gain_d), 0.3);
    assert_eq!(float(cfg.integral_limit), 0.5);
}

#[test]
fn default_config_gain_scheduling() {
    let cfg = AutopilotConfig::default();
    assert_eq!(float(cfg.speed_nominal_mps), 2.5);
}

#[test]
fn default_config_heel_compensation() {
    let cfg = AutopilotConfig::default();
    assert_eq!(float(cfg.heel_gain), -0.5);
}

#[test]
fn default_config_rate_limiting() {
    let cfg = AutopilotConfig::default();
    assert!((float(cfg.max_rudder_rate_rad_per_sec) - 0.09).abs() < 1e-10);
}

#[test]
fn default_config_tick_rates() {
    let cfg = AutopilotConfig::default();
    assert_eq!(float(cfg.control_rate_hz), 10.0);
    assert_eq!(float(cfg.output_rate_hz), 1.0);
}

#[test]
fn default_config_recovery() {
    let cfg = AutopilotConfig::default();
    assert!((float(cfg.recovery_threshold_rad) - 0.35).abs() < 1e-10);
    assert_eq!(cfg.recovery_max_ticks, 15);
    assert!((float(cfg.recovery_gain_factor) - 2.0).abs() < 1e-10);
}

#[test]
fn default_config_gust() {
    let cfg = AutopilotConfig::default();
    assert!((float(cfg.gust_gain) - (-0.02)).abs() < 1e-10);
    assert!((float(cfg.gust_threshold_mps_per_sec) - 3.0).abs() < 1e-10);
}

#[test]
fn default_config_route_lookahead() {
    let cfg = AutopilotConfig::default();
    assert!((float(cfg.route_lookahead_m) - 100.0).abs() < 1e-10);
}

#[test]
fn default_config_rudder_feedback() {
    let cfg = AutopilotConfig::default();
    assert!((float(cfg.rudder_feedback_threshold_rad) - 0.087).abs() < 1e-10);
    assert_eq!(cfg.rudder_feedback_timeout_ticks, 30);
}

#[test]
fn default_config_heading_plausibility() {
    let cfg = AutopilotConfig::default();
    assert!((float(cfg.max_heading_rate_rad_per_sec) - 1.5).abs() < 1e-10);
    assert!((float(cfg.max_yaw_rate_rad_per_sec) - 0.8).abs() < 1e-10);
    assert_eq!(cfg.heading_glitch_max_count, 3);
    assert!((float(cfg.dterm_quality_half_life_secs) - 0.5).abs() < 1e-10);
}

#[test]
fn pid_config_from_autopilot_config() {
    let cfg = AutopilotConfig::default();
    let pid_cfg = cfg.pid_config();
    assert_eq!(pid_cfg.gain_p, cfg.gain_p);
    assert_eq!(pid_cfg.gain_i, cfg.gain_i);
    assert_eq!(pid_cfg.gain_d, cfg.gain_d);
}


const SECOND: u64 = 1_000_000_000;

fn delta(source: Source, values: Vec<Reading>) -> Incoming {
    Incoming {
        context: Some("vessels.self".to_string()),
        updates: vec![IncomingUpdate { source, values }],
    }
}

#[test]
fn mode_names_are_read_back() {
    for name in ["compass", "wind", "wind_true", "route"] {
        assert_eq!(AutopilotMode::from_str(name).unwrap().as_str(), name);
    }
    assert_eq!(
        AutopilotMode::from_str("magic").unwrap_err(),
        "unknown autopilot mode: magic"
    );
}

#[test]
fn mode_paths() {
    assert_eq!(AutopilotMode::Compass.sensor_path(), "navigation.headingMagnetic");
    assert_eq!(AutopilotMode::Wind.sensor_path(), "environment.wind.angleApparent");
    assert_eq!(
        AutopilotMode::Compass.target_path(),
        "steering.autopilot.target.headingMagnetic"
    );
}

#[test]
fn refused_state_changes_nothing() {
    let mut st = compass_state();
    match st.set_state("sailing") {
        Err(ProviderError::Runtime(message)) => {
            assert_eq!(message, "unknown autopilot state: sailing");
        }
        other => panic!("{other:?}"),
    }
    assert!(st.enabled);
}

#[test]
fn sensors_age() {
    let mut st = compass_state();
    assert!(st.sensor_timed_out(10, SECOND));
    st.update_sensor("navigation.headingMagnetic", r64(1.25), SECOND);
    assert_eq!(st.current_sensor(), Some(r64(1.25)));
    assert!(!st.sensor_timed_out(10, 11 * SECOND));
    assert!(st.sensor_timed_out(10, 12 * SECOND));
    st.update_sensor("navigation.headingMagnetic", r64(1.5), 12 * SECOND);
    assert_eq!(st.sensor("navigation.headingMagnetic"), Some(r64(1.5)));
    assert_eq!(st.last_heard("navigation.headingMagnetic"), Some(12 * SECOND));
}

#[test]
fn own_rudder_commands_are_no_feedback() {
    let mut st = compass_state();
    let rudder = || vec![reading("steering.rudderAngle", jnum(0.2))];
    st.handle_delta(&delta(Source::plugin("autopilot"), rudder()), SECOND);
    assert!(st.actual_rudder_rad.is_none());
    st.handle_delta(&delta(Source::plugin("rudder-sensor"), rudder()), SECOND);
    assert_eq!(st.actual_rudder_rad, Some(r64(0.2)));
    assert_eq!(st.actual_rudder_last_seen, Some(SECOND));
}

#[test]
fn tack_keeps_the_smallest_angle() {
    let mut st = wind_state();
    st.target_rad = Some(r64(0.05));
    let target = float(st.manoeuvre_target(TackDirection::Port));
    assert_eq!(target, -0.1);
}

/// One control tick; returns what is sent and the status.
fn tick(
    control: &mut ControlLoop,
    state: &mut AutopilotState,
    cfg: &AutopilotConfig,
    every: u64,
    now: u64,
) -> (Vec<Delta>, Option<&'static str>) {
    let value = |e: &Expr| r64(eval(e));
    let (out, plan) = begin_tick(control, state, cfg, every, now);
    let mut deltas = out.deltas;
    let plan = match plan {
        Some(plan) => plan,
        None => return (deltas, out.status),
    };
    let jump = plan.jump.as_ref().map_or(r64(0.0), value);
    let heading = match check_heading(control, state, &plan.snap, jump, value(&plan.max_jump)) {
        HeadingStep::Steer(heading) => heading,
        HeadingStep::Failed(failed) => {
            deltas.extend(failed.deltas);
            return (deltas, failed.status);
        }
    };
    let effective_target = value(&plan.effective_target);
    let (error, exit) = recovery_plan(&plan.snap, heading, effective_target, cfg);
    let values = SteerValues {
        heading,
        effective_target,
        dt: value(&plan.dt),
        heading_age: value(&plan.heading_age),
        recovery_error: error.as_ref().map(value),
        recovery_exit: value(&exit),
    };
    let steering = match control_plan(control, &plan.snap, &values, cfg) {
        Some(steering) => steering,
        None => return (deltas, out.status),
    };
    let cv = ControlValues {
        error: value(&steering.errors.error),
        d_error: value(&steering.errors.d_error),
        gain_p: value(&steering.gains.gain_p),
        gain_i: value(&steering.gains.gain_i),
        gain_d: value(&steering.gains.gain_d),
    };
    let rudder = rudder_plan(control, &plan.snap, &cv, values.dt, cfg);
    let rv = RudderValues {
        error: cv.error,
        rudder: value(&rudder.rudder),
        integral: value(&rudder.integral),
        gust_rate: rudder.gust_rate.as_ref().map(value),
        mismatch: rudder.mismatch.as_ref().map(value),
        wind: steering.wind.as_ref().map(|(s, c)| (value(s), value(c))),
    };
    let degrees = |x: Real| format!("{:.1}", float(x).to_degrees());
    let actual = plan.snap.actual_rudder.unwrap_or(r64(0.0));
    let done = finish_tick(
        control,
        state,
        &plan.snap,
        plan.emit,
        &rv,
        cfg,
        now,
        &degrees(rv.rudder),
        &degrees(actual),
    );
    deltas.extend(done.deltas);
    (deltas, done.status)
}

fn paths(deltas: &[Delta]) -> Vec<&str> {
    deltas
        .iter()
        .flat_map(|d| d.updates[0].values.iter())
        .map(|pv| pv.path.as_str())
        .collect()
}

fn rudder_in(deltas: &[Delta]) -> Option<f64> {
    for d in deltas {
        for pv in &d.updates[0].values {
            if pv.path == "steering.rudderAngle" {
                if let Value::Number(e) = &pv.value {
                    return Some(eval(e));
                }
            }
        }
    }
    None
}

fn heading_at(state: &mut AutopilotState, heading: f64, now: u64) {
    state.update_sensor("navigation.headingMagnetic", r64(heading), now);
}

#[test]
fn intervals_follow_the_rates() {
    assert_eq!(eval(&control_interval(r64(10.0))), 0.1);
    assert_eq!(eval(&output_every(r64(10.0), r64(1.0))), 10.0);
    assert_eq!(eval(&output_every(r64(1.0), r64(10.0))), 1.0);
}

#[test]
fn disengaged_tick_only_reports() {
    let cfg = AutopilotConfig::default();
    let mut control = ControlLoop::new(&cfg);
    let mut st = AutopilotState::new(AutopilotMode::Compass);
    let (deltas, status) = tick(&mut control, &mut st, &cfg, 2, SECOND);
    assert!(deltas.is_empty() && status.is_none());
    let (deltas, _) = tick(&mut control, &mut st, &cfg, 2, 2 * SECOND);
    assert_eq!(deltas.len(), 1);
    assert!(paths(&deltas).contains(&"steering.autopilot.engaged"));
}

#[test]
fn engaged_tick_steers_towards_the_target() {
    let cfg = AutopilotConfig::default();
    let mut control = ControlLoop::new(&cfg);
    let mut st = compass_state();
    heading_at(&mut st, 0.9, SECOND);
    let (deltas, status) = tick(&mut control, &mut st, &cfg, 1, SECOND);
    let rudder = rudder_in(&deltas).unwrap();
    // The rate limit allows 0.09 rad/s for a tenth of a second.
    assert!((rudder - 0.009).abs() < 1e-12, "{rudder}");
    assert!(status.is_none());
    assert!((float(st.last_error_rad) - 0.1).abs() < 1e-12);
    assert_eq!(st.last_tick_at, Some(SECOND));
}

#[test]
fn dodge_moves_the_target() {
    let cfg = AutopilotConfig::default();
    let mut control = ControlLoop::new(&cfg);
    let mut st = compass_state();
    st.dodge(Some(r64(-0.3)));
    heading_at(&mut st, 0.9, SECOND);
    let (deltas, _) = tick(&mut control, &mut st, &cfg, 1, SECOND);
    assert!(rudder_in(&deltas).unwrap() < 0.0);
    assert!((float(st.last_error_rad) + 0.2).abs() < 1e-12);
}

#[test]
fn silent_sensor_disengages() {
    let cfg = AutopilotConfig::default();
    let mut control = ControlLoop::new(&cfg);
    let mut st = compass_state();
    let (deltas, status) = tick(&mut control, &mut st, &cfg, 10, SECOND);
    assert_eq!(rudder_in(&deltas), Some(0.0));
    assert!(paths(&deltas).contains(&"notifications.steering.autopilot.dataTimeout"));
    assert_eq!(status, Some("Sensor timeout \u{2014} disengaged"));
    assert!(!st.enabled);
}

#[test]
fn wild_compass_disengages() {
    let cfg = AutopilotConfig::default();
    let mut control = ControlLoop::new(&cfg);
    let mut st = compass_state();
    let tenth = SECOND / 10;
    heading_at(&mut st, 1.0, SECOND);
    tick(&mut control, &mut st, &cfg, 10, SECOND);
    for n in 1..3u64 {
        heading_at(&mut st, -2.0, SECOND + n * tenth);
        tick(&mut control, &mut st, &cfg, 10, SECOND + n * tenth);
        assert!(st.enabled);
    }
    heading_at(&mut st, -2.0, SECOND + 3 * tenth);
    let (deltas, status) = tick(&mut control, &mut st, &cfg, 10, SECOND + 3 * tenth);
    assert!(!st.enabled);
    assert!(paths(&deltas).contains(&"notifications.steering.autopilot.heading"));
    assert_eq!(status, Some("Heading sensor failure \u{2014} disengaged"));
}

#[test]
fn stuck_rudder_raises_and_clears_the_alarm() {
    let cfg = AutopilotConfig::default();
    let mut control = ControlLoop::new(&cfg);
    let mut st = compass_state();
    st.target_rad = Some(r64(1.5));
    let mut now = SECOND;
    let mut raised = None;
    for n in 0..120 {
        now += SECOND / 10;
        heading_at(&mut st, 1.0, now);
        let stuck = delta(
            Source::plugin("rudder-sensor"),
            vec![reading("steering.rudderAngle", jnum(0.0))],
        );
        st.handle_delta(&stuck, now);
        let (deltas, status) = tick(&mut control, &mut st, &cfg, 1000, now);
        if !deltas.is_empty() {
            assert_eq!(
                paths(&deltas),
                vec!["notifications.steering.autopilot.rudderFeedbackFailure"]
            );
            assert_eq!(status, Some("Rudder feedback failure \u{2014} check steering"));
            assert!(raised.is_none());
            raised = Some(n);
        }
    }
    assert!(raised.unwrap() >= 30);
    now += SECOND / 10;
    heading_at(&mut st, 1.0, now);
    let follows = delta(
        Source::plugin("rudder-sensor"),
        vec![reading("steering.rudderAngle", jnum(float(st.last_rudder_rad)))],
    );
    st.handle_delta(&follows, now);
    let (deltas, status) = tick(&mut control, &mut st, &cfg, 1000, now);
    assert_eq!(deltas.len(), 1);
    assert_eq!(status, Some("Active"));
}

#[test]
fn wind_mode_needs_the_wind() {
    let cfg = AutopilotConfig::default();
    let mut control = ControlLoop::new(&cfg);
    let mut st = wind_state();
    st.update_sensor("environment.wind.angleApparent", r64(0.6), SECOND);
    let (deltas, _) = tick(&mut control, &mut st, &cfg, 1, SECOND);
    assert!(rudder_in(&deltas).unwrap() > 0.0);
    assert!((eval(&control.wind_filter.get().unwrap()) - 0.6).abs() < 1e-12);
}

#[test]
fn start_mode_falls_back_to_compass() {
    let mut cfg = AutopilotConfig::default();
    assert_eq!(cfg.start_mode(), AutopilotMode::Compass);
    cfg.initial_mode = "route".to_string();
    assert_eq!(cfg.start_mode(), AutopilotMode::Route);
    cfg.initial_mode = "Wind".to_string();
    assert_eq!(cfg.start_mode(), AutopilotMode::Compass);
}

#[test]
fn commands_move_at_the_rudders_rate_within_its_limit() {
    let cfg = AutopilotConfig::default();
    let mut control = ControlLoop::new(&cfg);
    let mut st = compass_state();
    let rate = float(cfg.max_rudder_rate_rad_per_sec);
    let limit = float(cfg.max_rudder_rad);
    let (mut now, mut last) = (SECOND, 0.0);
    for n in 0..200 {
        let heading = if n < 100 { 2.0 } else { -0.5 };
        let step = if n == 0 { 0.1 } else { 0.2 };
        st.update_sensor("navigation.headingMagnetic", r64(heading), now);
        st.update_sensor("navigation.attitude.roll", r64(0.4), now);
        control.heading_plausibility.reset();
        let (deltas, _) = tick(&mut control, &mut st, &cfg, 1, now);
        let rudder = rudder_in(&deltas).unwrap();
        assert!((rudder - last).abs() <= rate * step + 1e-12, "{n}: {last} to {rudder}");
        assert!(rudder.abs() <= limit + 1e-12);
        last = rudder;
        now += SECOND / 5;
    }
    assert!(last > 0.0);
}
