#![allow(dead_code)]
use signalk_plugins::derived::course::{
    steer_error, BearingMagnetic, CourseBearing, CourseDistance, CourseOverGroundMagnetic, Eta,
    PreviousPointDistance, SteerError, VmgWaypoint,
};
use signalk_plugins::derived::geo::full_turn;
use signalk_plugins::derived::moon::Moon;
use signalk_plugins::derived::motion::{Leeway, SetDrift, VmgStw, WindGround};
use signalk_plugins::derived::propulsion::{PropSlip, PropState};
use signalk_plugins::derived::tanks::TankVolume;
use signalk_plugins::derived::weather::{AirDensity, HeatIndex};
use signalk_plugins::derived::Values;
use signalk_plugins::expr::{num, Expr};
use signalk_plugins::json::{Json, Member};
use signalk_plugins::number::Real;
use signalk_plugins::signalk::{PathValue, Value};
use std::f64::consts::{FRAC_PI_2, FRAC_PI_4, PI};

fn r64(x: f64) -> Real {
    Real { bits: x.to_bits() }
}

fn float(r: Real) -> f64 {
    f64::from_bits(r.bits)
}

/// Carries out a formula.
fn eval(e: &Expr) -> f64 {
    let half: f64 = std::f64::consts::PI;
    match e {
        Expr::Lit(r) => float(*r),
        Expr::Single(bits) => f32::from_bits(*bits) as f64,
        Expr::Int(i) => *i as f64,
        Expr::Uint(u) => *u as f64,
        Expr::Neg(a) => -eval(a),
        Expr::Abs(a) => eval(a).abs(),
        Expr::Sqrt(a) => eval(a).sqrt(),
        Expr::Sin(a) => eval(a).sin(),
        Expr::Cos(a) => eval(a).cos(),
        Expr::Asin(a) => eval(a).asin(),
        Expr::Atan(a) => eval(a).atan(),
        Expr::Exp(a) => eval(a).exp(),
        Expr::Floor(a) => eval(a).floor(),
        Expr::Round(a) => eval(a).round(),
        Expr::Signum(a) => eval(a).signum(),
        Expr::Wrap(a) => {
            let mut x = eval(a);
            while x > half {
                x -= 2.0 * half;
            }
            while x < -half {
                x += 2.0 * half;
            }
            x
        }
        Expr::ToRadians(a) => eval(a).to_radians(),
        Expr::ToDegrees(a) => eval(a).to_degrees(),
        Expr::ToSingle(a) => eval(a) as f32 as f64,
        Expr::ToWord(a) => eval(a) as u32 as f64,
        Expr::Add(a, b) => eval(a) + eval(b),
        Expr::Sub(a, b) => eval(a) - eval(b),
        Expr::Mul(a, b) => eval(a) * eval(b),
        Expr::Div(a, b) => eval(a) / eval(b),
        Expr::Rem(a, b) => eval(a) % eval(b),
        Expr::RemEuclid(a, b) => eval(a).rem_euclid(eval(b)),
        Expr::Atan2(a, b) => eval(a).atan2(eval(b)),
        Expr::Powf(a, b) => eval(a).powf(eval(b)),
        Expr::Min(a, b) => eval(a).min(eval(b)),
        Expr::Max(a, b) => eval(a).max(eval(b)),
        Expr::Clamp(a, lo, hi) => eval(a).clamp(eval(lo), eval(hi)),
        Expr::IfLess(a, b, yes, no) => {
            if eval(a) < eval(b) {
                eval(yes)
            } else {
                eval(no)
            }
        }
    }
}

fn jnum(x: f64) -> Json {
    Json::Number(r64(x))
}

fn jtext(s: &str) -> Json {
    Json::Text(s.to_string())
}

fn jobj(members: Vec<(&str, Json)>) -> Json {
    let mut list = Vec::new();
    for (key, value) in members {
        list.push(Member { key: key.to_string(), value });
    }
    Json::Object(list)
}

fn find<'a>(values: &'a [PathValue], path: &str) -> Option<&'a Value> {
    values.iter().find(|pv| pv.path == path).map(|pv| &pv.value)
}

fn number(v: &Value) -> f64 {
    match v {
        Value::Number(e) => eval(e),
        Value::Int(i) => *i as f64,
        _ => panic!("not a number: {v:?}"),
    }
}

fn text_of(v: &Value) -> &str {
    match v {
        Value::Text(s) => s.as_str(),
        _ => panic!("not a text: {v:?}"),
    }
}

fn member<'a>(v: &'a Value, key: &str) -> &'a Value {
    match v {
        Value::Object(fields) => &fields.iter().find(|f| f.key == key).unwrap().value,
        _ => panic!("not an object: {v:?}"),
    }
}

fn normalize_angle(a: f64) -> f64 {
    a.rem_euclid(2.0 * PI)
}

fn make_values(heading_mag: f64, cog_true: f64, stw: f64, sog: f64, variation: f64) -> Values {
    let mut v = Values::new();
    v.insert("navigation.headingMagnetic", jnum(heading_mag));
    v.insert("navigation.courseOverGroundTrue", jnum(cog_true));
    v.insert("navigation.speedThroughWater", jnum(stw));
    v.insert("navigation.speedOverGround", jnum(sog));
    v.insert("navigation.magneticVariation", jnum(variation));
    v
}

#[test]
fn dry_air_density_at_sea_level() {
    let calc = AirDensity;
    let mut values = Values::new();
    // Standard atmosphere: 101325 Pa, 288.15 K (15 degC), no humidity
    values.insert("environment.outside.temperature", jnum(288.15));
    values.insert("environment.outside.pressure", jnum(101325.0));

    let result = calc.calculate(&values).unwrap();
    assert_eq!(result[0].path, "environment.outside.airDensity");
    let density = number(&result[0].value);
    // Dry air at standard conditions ~ 1.225 kg/m^3
    assert!(
        (density - 1.225).abs() < 0.01,
        "Expected ~1.225 kg/m^3, got {density}"
    );
}

#[test]
fn moist_air_density_less_than_dry() {
    let calc = AirDensity;

    // Dry air
    let mut dry = Values::new();
    dry.insert("environment.outside.temperature", jnum(293.15));
    dry.insert("environment.outside.pressure", jnum(101325.0));
    let dry_density = number(&calc.calculate(&dry).unwrap()[0].value);

    // Moist air (80% humidity)
    let mut moist = Values::new();
    moist.insert("environment.outside.temperature", jnum(293.15));
    moist.insert("environment.outside.pressure", jnum(101325.0));
    moist.insert("environment.outside.humidity", jnum(0.8));
    let moist_density = number(&calc.calculate(&moist).unwrap()[0].value);

    // Moist air is always lighter than dry air at same T and P
    assert!(
        moist_density < dry_density,
        "Moist air ({moist_density}) should be lighter than dry ({dry_density})"
    );
    // Difference should be small but measurable
    assert!(
        (dry_density - moist_density) < 0.02,
        "Difference too large: {}",
        dry_density - moist_density
    );
}

#[test]
fn rejects_zero_temp() {
    let calc = AirDensity;
    let mut values = Values::new();
    values.insert("environment.outside.temperature", jnum(0.0));
    values.insert("environment.outside.pressure", jnum(101325.0));
    assert!(calc.calculate(&values).is_none());
}

#[test]
fn missing_pressure() {
    let calc = AirDensity;
    let mut values = Values::new();
    values.insert("environment.outside.temperature", jnum(288.15));
    assert!(calc.calculate(&values).is_none());
}

#[test]
fn east_variation() {
    let calc = BearingMagnetic;
    let mut values = Values::new();
    // True bearing 90 deg (pi/2), east variation 10 deg (0.174 rad)
    values.insert("navigation.course.calcValues.bearingTrackTrue", jnum(PI / 2.0));
    values.insert("navigation.magneticVariation", jnum(0.174));

    let result = calc.calculate(&values).unwrap();
    assert_eq!(
        result[0].path,
        "navigation.course.calcValues.bearingTrackMagnetic"
    );
    let bearing = number(&result[0].value);
    let expected = PI / 2.0 - 0.174;
    assert!(
        (bearing - expected).abs() < 0.001,
        "Expected ~{expected}, got {bearing}"
    );
}

#[test]
fn wraps_around() {
    let calc = BearingMagnetic;
    let mut values = Values::new();
    // True bearing near 0 (0.05 rad), west variation -0.2 rad
    // Result: 0.05 - (-0.2) = 0.25 rad
    values.insert("navigation.course.calcValues.bearingTrackTrue", jnum(0.05));
    values.insert("navigation.magneticVariation", jnum(-0.2));

    let result = calc.calculate(&values).unwrap();
    let bearing = number(&result[0].value);
    assert!(
        (0.0..2.0 * PI).contains(&bearing),
        "Should be in [0, 2pi), got {bearing}"
    );
    assert!(
        (bearing - 0.25).abs() < 0.001,
        "Expected ~0.25, got {bearing}"
    );
}

#[test]
fn missing_variation_returns_none() {
    let calc = BearingMagnetic;
    let mut values = Values::new();
    values.insert("navigation.course.calcValues.bearingTrackTrue", jnum(1.0));
    assert!(calc.calculate(&values).is_none());
}

#[test]
fn bearing_north() {
    let calc = CourseBearing;
    let mut values = Values::new();
    values.insert(
        "navigation.position",
        jobj(vec![("latitude", jnum(49.0)), ("longitude", jnum(-123.0))]),
    );
    values.insert(
        "navigation.course.nextPoint.position",
        jobj(vec![("latitude", jnum(50.0)), ("longitude", jnum(-123.0))]),
    );

    let result = calc.calculate(&values).unwrap();
    assert_eq!(
        result[0].path,
        "navigation.course.calcValues.bearingTrackTrue"
    );
    let value = number(&result[0].value);
    // Going north: bearing ~ 0
    assert!(
        !(0.01..=2.0 * PI - 0.01).contains(&value),
        "Expected ~0 rad, got {value}"
    );
}

#[test]
fn bearing_east() {
    let calc = CourseBearing;
    let mut values = Values::new();
    values.insert(
        "navigation.position",
        jobj(vec![("latitude", jnum(0.0)), ("longitude", jnum(0.0))]),
    );
    values.insert(
        "navigation.course.nextPoint.position",
        jobj(vec![("latitude", jnum(0.0)), ("longitude", jnum(1.0))]),
    );

    let result = calc.calculate(&values).unwrap();
    let value = number(&result[0].value);
    assert!(
        (value - PI / 2.0).abs() < 0.01,
        "Expected ~pi/2, got {value}"
    );
}

#[test]
fn missing_next_point() {
    let calc = CourseBearing;
    let mut values = Values::new();
    values.insert(
        "navigation.position",
        jobj(vec![("latitude", jnum(49.0)), ("longitude", jnum(-123.0))]),
    );
    assert!(calc.calculate(&values).is_none());
}

#[test]
fn course_distance_distance_known() {
    let calc = CourseDistance;
    let mut values = Values::new();
    values.insert(
        "navigation.position",
        jobj(vec![("latitude", jnum(49.2827)), ("longitude", jnum(-123.1207))]),
    );
    values.insert(
        "navigation.courseGreatCircle.nextPoint.position",
        jobj(vec![("latitude", jnum(49.3200)), ("longitude", jnum(-123.0724))]),
    );

    let result = calc.calculate(&values).unwrap();
    assert_eq!(
        result[0].path,
        "navigation.courseGreatCircle.nextPoint.distance"
    );
    let distance = number(&result[0].value);
    // ~5.5 km
    assert!(
        (5000.0..6000.0).contains(&distance),
        "Expected ~5.5km, got {distance}m"
    );
}

#[test]
fn distance_zero() {
    let calc = CourseDistance;
    let mut values = Values::new();
    values.insert(
        "navigation.position",
        jobj(vec![("latitude", jnum(49.0)), ("longitude", jnum(-123.0))]),
    );
    values.insert(
        "navigation.courseGreatCircle.nextPoint.position",
        jobj(vec![("latitude", jnum(49.0)), ("longitude", jnum(-123.0))]),
    );

    let result = calc.calculate(&values).unwrap();
    let distance = number(&result[0].value);
    assert!(
        distance < 1.0,
        "Expected near-zero distance, got {distance}m"
    );
}

#[test]
fn missing_position() {
    let calc = CourseDistance;
    let values = Values::new();
    assert!(calc.calculate(&values).is_none());
}

#[test]
fn cog_magnetic_basic() {
    let calc = CourseOverGroundMagnetic;
    let mut values = Values::new();
    values.insert("navigation.courseOverGroundTrue", jnum(1.5));
    values.insert("navigation.magneticVariation", jnum(0.05));

    let result = calc.calculate(&values).unwrap();
    assert_eq!(result[0].path, "navigation.courseOverGroundMagnetic");
    let value = number(&result[0].value);
    assert!((value - 1.45).abs() < 0.001);
}

#[test]
fn cog_magnetic_wraps_negative() {
    let calc = CourseOverGroundMagnetic;
    let mut values = Values::new();
    values.insert("navigation.courseOverGroundTrue", jnum(0.02));
    values.insert("navigation.magneticVariation", jnum(0.1));

    let result = calc.calculate(&values).unwrap();
    let value = number(&result[0].value);
    // Should wrap to near 2pi
    assert!(value > 6.0, "expected near 2pi, got {value}");
}

#[test]
fn basic_eta() {
    let calc = Eta;
    let mut values = Values::new();
    // 10 NM = 18520m, 5 m/s VMG -> 3704 seconds ~ 62 min
    values.insert("navigation.courseGreatCircle.nextPoint.distance", jnum(18520.0));
    values.insert("navigation.courseGreatCircle.nextPoint.velocityMadeGood", jnum(5.0));
    let result = calc.calculate(&values).unwrap();
    let eta_s = number(&result[0].value);
    assert!((eta_s - 3704.0).abs() < 1.0);
}

#[test]
fn no_progress_returns_none() {
    let calc = Eta;
    let mut values = Values::new();
    values.insert("navigation.courseGreatCircle.nextPoint.distance", jnum(18520.0));
    values.insert("navigation.courseGreatCircle.nextPoint.velocityMadeGood", jnum(0.0));
    assert!(calc.calculate(&values).is_none());
}

#[test]
fn hot_humid_day() {
    let calc = HeatIndex;
    let mut values = Values::new();
    // 35 degC = 308.15K, 70% humidity -> heat index should be > 35 degC
    values.insert("environment.outside.temperature", jnum(308.15));
    values.insert("environment.outside.humidity", jnum(0.7));
    let result = calc.calculate(&values).unwrap();
    let hi_k = number(&result[0].value);
    let hi_c = hi_k - 273.15;
    assert!(
        hi_c > 35.0,
        "Heat index should exceed air temp at high humidity, got {hi_c} degC"
    );
}

#[test]
fn cool_day_returns_near_temp() {
    let calc = HeatIndex;
    let mut values = Values::new();
    // 20 degC = 293.15K, 50% humidity -> heat index ~ air temp
    values.insert("environment.outside.temperature", jnum(293.15));
    values.insert("environment.outside.humidity", jnum(0.5));
    let result = calc.calculate(&values).unwrap();
    let hi_k = number(&result[0].value);
    assert!(
        (hi_k - 293.15).abs() < 5.0,
        "At cool temps, heat index should be close to air temp"
    );
}

#[test]
fn heel_produces_leeway() {
    let calc = Leeway;
    let mut values = Values::new();
    // 15 deg heel (0.26 rad), 5 m/s STW
    values.insert(
        "navigation.attitude",
        jobj(vec![("roll", jnum(0.26)), ("pitch", jnum(0.0)), ("yaw", jnum(0.0))]),
    );
    values.insert("navigation.speedThroughWater", jnum(5.0));
    let result = calc.calculate(&values).unwrap();
    let leeway = number(&result[0].value);
    // K=10, roll=0.26, stw=5 -> 10 * 0.26 / 25 = 0.104 rad ~ 6 deg
    assert!(
        (leeway - 0.104).abs() < 0.001,
        "Expected ~0.104 rad, got {leeway}"
    );
}

#[test]
fn too_slow_returns_none() {
    let calc = Leeway;
    let mut values = Values::new();
    values.insert("navigation.attitude", jobj(vec![("roll", jnum(0.26))]));
    values.insert("navigation.speedThroughWater", jnum(0.1));
    assert!(calc.calculate(&values).is_none());
}

#[test]
fn no_heel_no_leeway() {
    let calc = Leeway;
    let mut values = Values::new();
    values.insert("navigation.attitude", jobj(vec![("roll", jnum(0.0))]));
    values.insert("navigation.speedThroughWater", jnum(5.0));
    let result = calc.calculate(&values).unwrap();
    let leeway = number(&result[0].value);
    assert!(leeway.abs() < 1e-10);
}

#[test]
fn moon_phase_values() {
    let calc = Moon;
    let mut values = Values::new();
    values.insert("navigation.datetime", jtext("2026-06-21T12:00:00.000Z"));
    let result = calc.calculate(&values).unwrap();
    assert_eq!(result.len(), 4);

    let phase = number(find(&result, "environment.moon.phase").unwrap());
    assert!(
        (0.0..=1.0).contains(&phase),
        "Phase should be 0-1, got {phase}"
    );

    let illumination = number(find(&result, "environment.moon.illumination").unwrap());
    assert!(
        (0.0..=1.0).contains(&illumination),
        "Illumination should be 0-1"
    );
}

#[test]
fn missing_datetime() {
    let calc = Moon;
    let values = Values::new();
    assert!(calc.calculate(&values).is_none());
}

#[test]
fn previous_point_distance_distance_known() {
    let calc = PreviousPointDistance;
    let mut values = Values::new();
    values.insert(
        "navigation.position",
        jobj(vec![("latitude", jnum(49.3200)), ("longitude", jnum(-123.0724))]),
    );
    values.insert(
        "navigation.course.previousPoint.position",
        jobj(vec![("latitude", jnum(49.2827)), ("longitude", jnum(-123.1207))]),
    );

    let result = calc.calculate(&values).unwrap();
    assert_eq!(
        result[0].path,
        "navigation.course.calcValues.previousPoint.distance"
    );
    let distance = number(&result[0].value);
    assert!(
        (5000.0..6000.0).contains(&distance),
        "Expected ~5.5km, got {distance}m"
    );
}

#[test]
fn at_previous_point() {
    let calc = PreviousPointDistance;
    let mut values = Values::new();
    values.insert(
        "navigation.position",
        jobj(vec![("latitude", jnum(49.0)), ("longitude", jnum(-123.0))]),
    );
    values.insert(
        "navigation.course.previousPoint.position",
        jobj(vec![("latitude", jnum(49.0)), ("longitude", jnum(-123.0))]),
    );

    let result = calc.calculate(&values).unwrap();
    let distance = number(&result[0].value);
    assert!(distance < 1.0, "Expected near-zero, got {distance}m");
}

#[test]
fn missing_previous_returns_none() {
    let calc = PreviousPointDistance;
    let mut values = Values::new();
    values.insert(
        "navigation.position",
        jobj(vec![("latitude", jnum(49.0)), ("longitude", jnum(-123.0))]),
    );
    assert!(calc.calculate(&values).is_none());
}

#[test]
fn basic_ratio() {
    let calc = PropSlip;
    let mut values = Values::new();
    values.insert("navigation.speedThroughWater", jnum(5.0));
    values.insert("propulsion.main.revolutions", jnum(25.0));
    let result = calc.calculate(&values).unwrap();
    assert_eq!(result[0].path, "propulsion.main.drive.propeller.slip");
    let ratio = number(&result[0].value);
    assert!((ratio - 0.2).abs() < 0.001); // 5.0 / 25.0
}

#[test]
fn engine_off_skips() {
    let calc = PropSlip;
    let mut values = Values::new();
    values.insert("navigation.speedThroughWater", jnum(5.0));
    values.insert("propulsion.main.revolutions", jnum(0.0));
    assert!(calc.calculate(&values).is_none());
}

#[test]
fn engine_running() {
    let calc = PropState;
    let mut values = Values::new();
    values.insert("propulsion.main.revolutions", jnum(50.0));
    let result = calc.calculate(&values).unwrap();
    assert_eq!(result[0].path, "propulsion.main.state.value");
    assert_eq!(text_of(&result[0].value), "started");
}

#[test]
fn engine_stopped() {
    let calc = PropState;
    let mut values = Values::new();
    values.insert("propulsion.main.revolutions", jnum(0.0));
    let result = calc.calculate(&values).unwrap();
    assert_eq!(text_of(&result[0].value), "stopped");
}

#[test]
fn multiple_engines() {
    let calc = PropState;
    let mut values = Values::new();
    values.insert("propulsion.port.revolutions", jnum(40.0));
    values.insert("propulsion.starboard.revolutions", jnum(0.0));
    let result = calc.calculate(&values).unwrap();
    assert_eq!(result.len(), 2);
}

#[test]
fn no_current_same_heading_and_speed() {
    // Heading north (mag), COG north (true), no variation, same speed -> no current
    let values = make_values(0.0, 0.0, 5.0, 5.0, 0.0);
    let result = SetDrift.calculate(&values).unwrap();

    let drift = number(find(&result, "environment.current.drift").unwrap());
    assert!(drift.abs() < 0.01, "expected ~0 drift, got {drift}");
}

#[test]
fn current_from_beam() {
    // Heading north (mag=0), variation=0, STW=5
    // COG pushed 30 deg east by current, SOG=6
    let values = make_values(0.0, std::f64::consts::FRAC_PI_6, 5.0, 6.0, 0.0);
    let result = SetDrift.calculate(&values).unwrap();

    let drift = number(find(&result, "environment.current.drift").unwrap());
    // Should be positive and plausible
    assert!(drift > 0.5, "expected positive drift, got {drift}");
    assert!(drift < 5.0, "drift too high: {drift}");

    // driftImpact should be drift/stw
    let impact = number(find(&result, "environment.current.driftImpact").unwrap());
    assert!(
        (impact - drift / 5.0).abs() < 0.001,
        "expected driftImpact = drift/stw, got {impact}"
    );
}

#[test]
fn drift_impact_omitted_when_stationary() {
    let values = make_values(0.0, 0.0, 0.0, 0.0, 0.05);
    let result = SetDrift.calculate(&values).unwrap();
    assert!(
        !result
            .iter()
            .any(|pv| pv.path == "environment.current.driftImpact"),
        "driftImpact should be omitted when STW is zero"
    );
}

#[test]
fn set_drift_both_stationary() {
    let values = make_values(0.0, 0.0, 0.0, 0.0, 0.05);
    let result = SetDrift.calculate(&values).unwrap();

    let drift = number(find(&result, "environment.current.drift").unwrap());
    assert!((drift - 0.0).abs() < 0.001);
}

#[test]
fn set_true_includes_variation() {
    let values = make_values(1.0, 1.2, 5.0, 5.5, 0.1);
    let result = SetDrift.calculate(&values).unwrap();

    let set_mag = number(find(&result, "environment.current.setMagnetic").unwrap());
    let set_true = number(find(&result, "environment.current.setTrue").unwrap());

    // setTrue should differ from setMagnetic by approximately the variation
    let diff = normalize_angle(set_true - set_mag);
    assert!(
        (diff - 0.1).abs() < 0.01 || (diff - (2.0 * PI - 0.1)).abs() < 0.01,
        "expected ~0.1 difference, got {diff}"
    );
}

#[test]
fn missing_input_returns_none() {
    let mut values = Values::new();
    values.insert("navigation.headingMagnetic", jnum(1.0));
    values.insert("navigation.courseOverGroundTrue", jnum(1.0));
    // Missing STW, SOG, variation
    assert!(SetDrift.calculate(&values).is_none());
}

#[test]
fn angles_normalized() {
    let values = make_values(5.5, 6.0, 4.0, 4.5, 0.05);
    let result = SetDrift.calculate(&values).unwrap();

    for pv in &result {
        if pv.path.contains("set") {
            let val = number(&pv.value);
            assert!(
                (0.0..2.0 * PI).contains(&val),
                "{}: {val} out of range",
                pv.path
            );
        }
    }
}

#[test]
fn on_course() {
    let calc = SteerError;
    let mut values = Values::new();
    values.insert("navigation.courseOverGroundTrue", jnum(1.0));
    values.insert("navigation.course.calcValues.bearingTrackTrue", jnum(1.0));
    let result = calc.calculate(&values).unwrap();
    let error = number(&result[0].value);
    assert!(error.abs() < 1e-10);
}

#[test]
fn veering_starboard() {
    let calc = SteerError;
    let mut values = Values::new();
    // COG 10 deg more than bearing -> positive error
    values.insert("navigation.courseOverGroundTrue", jnum(1.2));
    values.insert("navigation.course.calcValues.bearingTrackTrue", jnum(1.0));
    let result = calc.calculate(&values).unwrap();
    let error = number(&result[0].value);
    assert!((error - 0.2).abs() < 1e-10);
}

#[test]
fn wraps_correctly() {
    let calc = SteerError;
    let mut values = Values::new();
    // COG near 0, bearing near 2pi -> small positive error
    values.insert("navigation.courseOverGroundTrue", jnum(0.1));
    values.insert("navigation.course.calcValues.bearingTrackTrue", jnum(2.0 * PI - 0.1));
    let result = calc.calculate(&values).unwrap();
    let error = number(&result[0].value);
    assert!((error - 0.2).abs() < 1e-10, "Expected ~0.2, got {error}");
}

#[test]
fn fuel_tank() {
    let calc = TankVolume;
    let mut values = Values::new();
    values.insert("tanks.fuel.0.capacity", jnum(0.200));
    values.insert("tanks.fuel.0.currentLevel", jnum(0.75));
    let result = calc.calculate(&values).unwrap();
    assert_eq!(result[0].path, "tanks.fuel.0.currentVolume");
    let volume = number(&result[0].value);
    assert!((volume - 0.150).abs() < 0.001);
}

#[test]
fn multiple_tanks() {
    let calc = TankVolume;
    let mut values = Values::new();
    values.insert("tanks.fuel.0.capacity", jnum(0.200));
    values.insert("tanks.fuel.0.currentLevel", jnum(0.5));
    values.insert("tanks.freshWater.0.capacity", jnum(0.150));
    values.insert("tanks.freshWater.0.currentLevel", jnum(0.8));
    let result = calc.calculate(&values).unwrap();
    assert_eq!(result.len(), 2);
}

#[test]
fn missing_level_skips() {
    let calc = TankVolume;
    let mut values = Values::new();
    values.insert("tanks.fuel.0.capacity", jnum(0.200));
    assert!(calc.calculate(&values).is_none());
}

#[test]
fn dead_ahead() {
    let calc = VmgStw;
    let mut values = Values::new();
    values.insert("environment.wind.angleTrueWater", jnum(0.0));
    values.insert("navigation.speedThroughWater", jnum(5.0));
    let result = calc.calculate(&values).unwrap();
    let vmg = number(&result[0].value);
    assert!((vmg - 5.0).abs() < 1e-10);
}

#[test]
fn beam_reach() {
    let calc = VmgStw;
    let mut values = Values::new();
    values.insert("environment.wind.angleTrueWater", jnum(FRAC_PI_2));
    values.insert("navigation.speedThroughWater", jnum(5.0));
    let result = calc.calculate(&values).unwrap();
    let vmg = number(&result[0].value);
    assert!(vmg.abs() < 1e-10, "Beam reach VMG should be ~0");
}

#[test]
fn close_hauled() {
    let calc = VmgStw;
    let mut values = Values::new();
    values.insert("environment.wind.angleTrueWater", jnum(FRAC_PI_4));
    values.insert("navigation.speedThroughWater", jnum(6.0));
    let result = calc.calculate(&values).unwrap();
    let vmg = number(&result[0].value);
    // cos(45 deg) ~ 0.707 -> VMG ~ 4.24
    assert!((vmg - 6.0 * FRAC_PI_4.cos()).abs() < 1e-10);
}

#[test]
fn downwind() {
    let calc = VmgStw;
    let mut values = Values::new();
    values.insert("environment.wind.angleTrueWater", jnum(PI));
    values.insert("navigation.speedThroughWater", jnum(5.0));
    let result = calc.calculate(&values).unwrap();
    let vmg = number(&result[0].value);
    assert!((vmg - (-5.0)).abs() < 1e-10);
}

#[test]
fn heading_straight_to_waypoint() {
    let mut values = Values::new();
    values.insert("navigation.speedOverGround", jnum(5.0));
    values.insert("navigation.courseOverGroundTrue", jnum(1.0));
    values.insert("navigation.courseGreatCircle.bearingTrackTrue", jnum(1.0));

    let result = VmgWaypoint.calculate(&values).unwrap();
    let vmg = number(&result[0].value);
    assert!((vmg - 5.0).abs() < 0.001, "Expected ~5.0 m/s, got {vmg}");
}

#[test]
fn perpendicular_to_waypoint() {
    let mut values = Values::new();
    values.insert("navigation.speedOverGround", jnum(5.0));
    values.insert("navigation.courseOverGroundTrue", jnum(0.0));
    values.insert("navigation.courseGreatCircle.bearingTrackTrue", jnum(FRAC_PI_2));

    let result = VmgWaypoint.calculate(&values).unwrap();
    let vmg = number(&result[0].value);
    assert!(vmg.abs() < 0.001, "Expected ~0 m/s, got {vmg}");
}

#[test]
fn away_from_waypoint() {
    let mut values = Values::new();
    values.insert("navigation.speedOverGround", jnum(5.0));
    values.insert("navigation.courseOverGroundTrue", jnum(0.0));
    values.insert("navigation.courseGreatCircle.bearingTrackTrue", jnum(PI));

    let result = VmgWaypoint.calculate(&values).unwrap();
    let vmg = number(&result[0].value);
    assert!(
        (vmg - (-5.0)).abs() < 0.001,
        "Expected ~-5.0 m/s, got {vmg}"
    );
}

#[test]
fn sog_zero() {
    let mut values = Values::new();
    values.insert("navigation.speedOverGround", jnum(0.0));
    values.insert("navigation.courseOverGroundTrue", jnum(1.0));
    values.insert("navigation.courseGreatCircle.bearingTrackTrue", jnum(2.0));

    let result = VmgWaypoint.calculate(&values).unwrap();
    let vmg = number(&result[0].value);
    assert!(vmg.abs() < 0.001, "Expected 0 m/s when SOG=0, got {vmg}");
}

#[test]
fn missing_bearing_returns_none() {
    let mut values = Values::new();
    values.insert("navigation.speedOverGround", jnum(5.0));
    values.insert("navigation.courseOverGroundTrue", jnum(1.0));
    // No bearing -> no active navigation
    assert!(VmgWaypoint.calculate(&values).is_none());
}

#[test]
fn headwind() {
    let calc = WindGround;
    let mut values = Values::new();
    // 10 m/s apparent from dead ahead (0 rad), SOG 5 m/s
    // True wind = 10 - 5 = 5 m/s from ahead
    values.insert("environment.wind.speedApparent", jnum(10.0));
    values.insert("environment.wind.angleApparent", jnum(0.0));
    values.insert("navigation.speedOverGround", jnum(5.0));
    let result = calc.calculate(&values).unwrap();
    let tws = number(find(&result, "environment.wind.speedOverGround").unwrap());
    assert!((tws - 5.0).abs() < 0.01);
}

#[test]
fn beam_wind() {
    let calc = WindGround;
    let mut values = Values::new();
    values.insert("environment.wind.speedApparent", jnum(10.0));
    values.insert("environment.wind.angleApparent", jnum(std::f64::consts::FRAC_PI_2));
    values.insert("navigation.speedOverGround", jnum(5.0));
    let result = calc.calculate(&values).unwrap();
    assert_eq!(result.len(), 2);
}


#[test]
fn later_insertions_replace_earlier_ones() {
    let mut values = Values::new();
    values.insert("a.b", jnum(1.0));
    values.insert("a.c", jnum(2.0));
    values.insert("a.b", jtext("x"));
    assert!(values.number("a.b").is_none());
    assert_eq!(values.number("a.c"), Some(r64(2.0)));
    assert!(values.get("a.d").is_none());
}

#[test]
fn calculators_name_their_inputs() {
    assert_eq!(AirDensity.name(), "airDensity");
    assert_eq!(
        AirDensity.inputs(),
        vec![
            "environment.outside.temperature",
            "environment.outside.pressure",
            "environment.outside.humidity",
        ]
    );
    assert_eq!(Moon.inputs(), vec!["navigation.datetime"]);
}

#[test]
fn moon_of_a_known_full_moon() {
    let mut values = Values::new();
    values.insert("navigation.datetime", jtext("2024-01-25T17:54:00.000Z"));
    let result = Moon.calculate(&values).unwrap();
    let phase = number(find(&result, "environment.moon.phase").unwrap());
    assert!((phase - 0.5).abs() < 0.03, "{phase}");
    let age = number(find(&result, "environment.moon.age").unwrap());
    assert!((age - phase * 29.530588853).abs() < 1e-9, "{age}");
    assert_eq!(text_of(find(&result, "environment.moon.phaseName").unwrap()), "Full");
    values.insert("navigation.datetime", jtext("no date"));
    assert!(Moon.calculate(&values).is_none());
}

#[test]
fn heat_index_exact_value_of_the_simple_formula() {
    let mut values = Values::new();
    values.insert("environment.outside.temperature", jnum(293.15));
    values.insert("environment.outside.humidity", jnum(0.5));
    let result = HeatIndex.calculate(&values).unwrap();
    // 20 deg C are 68 deg F: 0.5 * (68 + 61 + (68 - 68) * 1.2 + 50 * 0.094) is 66.85 deg F.
    let expected = (66.85 - 32.0) * 5.0 / 9.0 + 273.15;
    assert!((number(&result[0].value) - expected).abs() < 1e-6, "{}", number(&result[0].value));
}

#[test]
fn wind_over_ground_by_the_law_of_cosines() {
    let mut values = Values::new();
    values.insert("environment.wind.speedApparent", jnum(10.0));
    values.insert("environment.wind.angleApparent", jnum(FRAC_PI_2));
    values.insert("navigation.speedOverGround", jnum(5.0));
    let result = WindGround.calculate(&values).unwrap();
    let speed = number(find(&result, "environment.wind.speedOverGround").unwrap());
    assert!((speed - 125.0_f64.sqrt()).abs() < 1e-12);
}

#[test]
fn heat_index_of_hot_dry_air_is_the_simple_one() {
    let index = |temperature: f64, humidity: f64| {
        let mut values = Values::new();
        values.insert("environment.outside.temperature", jnum(temperature));
        values.insert("environment.outside.humidity", jnum(humidity));
        let result = HeatIndex.calculate(&values).unwrap();
        assert_eq!(result.len(), 1);
        number(&result[0].value)
    };
    // 30 deg C are 86 deg F: 0.5 * (86 + 61 + 18 * 1.2 + 20 * 0.094) is 85.24 deg F.
    assert!((index(303.15, 0.2) - 302.728).abs() < 0.01, "{}", index(303.15, 0.2));
    // From 40 per cent on the regression counts: 85.27 deg F.
    let regression = -42.379 + 2.04901523 * 86.0 + 10.14333127 * 40.0 - 0.22475541 * 86.0 * 40.0
        - 6.83783e-3 * 86.0 * 86.0
        - 5.481717e-2 * 40.0 * 40.0
        + 1.22874e-3 * 86.0 * 86.0 * 40.0
        + 8.5282e-4 * 86.0 * 40.0 * 40.0
        - 1.99e-6 * 86.0 * 86.0 * 40.0 * 40.0;
    let expected = (regression - 32.0) * 5.0 / 9.0 + 273.15;
    assert!((index(303.15, 0.4) - expected).abs() < 1e-6, "{}", index(303.15, 0.4));
}

#[test]
fn directions_lie_between_zero_and_a_turn() {
    let direction = |a: f64| eval(&full_turn(num(r64(a))));
    for k in -50..50 {
        let a = k as f64 * 0.37;
        let d = direction(a);
        assert!((0.0..2.0 * PI).contains(&d), "{a}: {d}");
        assert!((a.sin() - d.sin()).abs() < 1e-9 && (a.cos() - d.cos()).abs() < 1e-9);
    }
    // Rounding makes a tiny step below zero a whole turn.
    assert_eq!(direction(-1e-300), 2.0 * PI);
}

#[test]
fn steer_errors_lie_within_half_a_turn() {
    for i in 0..40 {
        for j in 0..40 {
            let (cog, bearing) = (i as f64 * PI / 20.0, j as f64 * PI / 20.0);
            let error = eval(&steer_error(r64(cog), r64(bearing)));
            assert!(error.abs() <= PI + 1e-12, "{cog} {bearing}: {error}");
            assert!(((cog - bearing).sin() - error.sin()).abs() < 1e-9);
        }
    }
    assert_eq!(eval(&steer_error(r64(0.5), r64(6.0))), 0.5 - 6.0 + 2.0 * PI);
}
