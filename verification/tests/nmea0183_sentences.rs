#![allow(dead_code)]
use signalk_plugins::clock::{CalendarDate, ClockTime};
use signalk_plugins::expr::Expr;
use signalk_plugins::nmea0183::sentence_to_delta;
use signalk_plugins::number::Real;
use signalk_plugins::sentences::course::{
    from_bod, from_bwc, from_rmb, from_xte, BodData, BwcData, RmbData, XteData,
};
use signalk_plugins::sentences::depth::{
    from_dbk, from_dbs, from_dbt, from_dpt, DbkData, DbsData, DbtData, DptData,
};
use signalk_plugins::sentences::environment::{
    from_mda, from_mtw, from_vdr, from_vlw, MdaData, MtwData, VdrData, VlwData,
};
use signalk_plugins::sentences::gnss::{from_gsa, from_zda, GsaData, ZdaData};
use signalk_plugins::sentences::heading::{
    from_hdg, from_hdm, from_hdt, from_rot, from_vhw, HdgData, HdmData, HdtData, RotData, VhwData,
};
use signalk_plugins::sentences::position::{
    from_gga, from_gll, from_rmc, from_vtg, FixType, GgaData, GllData, RmcData, RmcStatusOfFix,
    VtgData,
};
use signalk_plugins::sentences::propulsion::{from_rpm, from_rsa, RpmData, RpmSource, RsaData};
use signalk_plugins::sentences::wind::{
    from_mwd, from_mwv, from_vwr, from_vwt, MwdData, MwvData, MwvReference, MwvWindSpeedUnits,
    VwrData, VwtData,
};
use signalk_plugins::signalk::{PathValue, Value};
use signalk_plugins::units::{DEG_TO_RAD, FEET_TO_M, KNOTS_TO_MS, NM_TO_M};

fn r64(x: f64) -> Real {
    Real { bits: x.to_bits() }
}

fn float(r: Real) -> f64 {
    f64::from_bits(r.bits)
}

/// Carries out a formula.
fn eval(e: &Expr) -> f64 {
    let half: f64 = std::f64::consts::PI;
    match e {
        Expr::Lit(r) => float(*r),
        Expr::Single(bits) => f32::from_bits(*bits) as f64,
        Expr::Int(i) => *i as f64,
        Expr::Uint(u) => *u as f64,
        Expr::Neg(a) => -eval(a),
        Expr::Abs(a) => eval(a).abs(),
        Expr::Sqrt(a) => eval(a).sqrt(),
        Expr::Sin(a) => eval(a).sin(),
        Expr::Cos(a) => eval(a).cos(),
        Expr::Asin(a) => eval(a).asin(),
        Expr::Atan(a) => eval(a).atan(),
        Expr::Exp(a) => eval(a).exp(),
        Expr::Floor(a) => eval(a).floor(),
        Expr::Round(a) => eval(a).round(),
        Expr::Signum(a) => eval(a).signum(),
        Expr::Wrap(a) => {
            let mut x = eval(a);
            while x > half {
                x -= 2.0 * half;
            }
            while x < -half {
                x += 2.0 * half;
            }
            x
        }
        Expr::ToRadians(a) => eval(a).to_radians(),
        Expr::ToDegrees(a) => eval(a).to_degrees(),
        Expr::ToSingle(a) => eval(a) as f32 as f64,
        Expr::ToWord(a) => eval(a) as u32 as f64,
        Expr::Add(a, b) => eval(a) + eval(b),
        Expr::Sub(a, b) => eval(a) - eval(b),
        Expr::Mul(a, b) => eval(a) * eval(b),
        Expr::Div(a, b) => eval(a) / eval(b),
        Expr::Rem(a, b) => eval(a) % eval(b),
        Expr::RemEuclid(a, b) => eval(a).rem_euclid(eval(b)),
        Expr::Atan2(a, b) => eval(a).atan2(eval(b)),
        Expr::Powf(a, b) => eval(a).powf(eval(b)),
        Expr::Min(a, b) => eval(a).min(eval(b)),
        Expr::Max(a, b) => eval(a).max(eval(b)),
        Expr::Clamp(a, lo, hi) => eval(a).clamp(eval(lo), eval(hi)),
        Expr::IfLess(a, b, yes, no) => {
            if eval(a) < eval(b) {
                eval(yes)
            } else {
                eval(no)
            }
        }
    }
}

fn find<'a>(values: &'a [PathValue], path: &str) -> Option<&'a Value> {
    values.iter().find(|pv| pv.path == path).map(|pv| &pv.value)
}

fn number(v: &Value) -> f64 {
    match v {
        Value::Number(e) => eval(e),
        Value::Int(i) => *i as f64,
        _ => panic!("not a number: {v:?}"),
    }
}

fn text_of(v: &Value) -> &str {
    match v {
        Value::Text(s) => s.as_str(),
        _ => panic!("not a text: {v:?}"),
    }
}

fn member<'a>(v: &'a Value, key: &str) -> &'a Value {
    match v {
        Value::Object(fields) => &fields.iter().find(|f| f.key == key).unwrap().value,
        _ => panic!("not an object: {v:?}"),
    }
}

/// The bits of a single precision number.
fn r32(x: f32) -> u32 {
    x.to_bits()
}

fn clock(hour: u32, minute: u32, second: u32, milli: u32) -> Option<ClockTime> {
    Some(ClockTime { hour, minute, second, nanosecond: milli * 1_000_000 })
}

fn rmb_active() -> RmbData {
    RmbData {
        status: true,
        cross_track_error: Some(r32(0.5)),
        dest_latitude: Some(r64(54.0)),
        dest_longitude: Some(r64(10.0)),
        range_to_dest: Some(r32(1.0)),
        bearing_to_dest: Some(r32(90.0)),
    }
}

#[test]
fn sentences_rmc_speed_converted_to_ms() {
    let rmc = RmcData {
        fix_time: None,
        fix_date: None,
        status_of_fix: RmcStatusOfFix::Autonomous,
        lat: Some(r64(53.0)),
        lon: Some(r64(9.0)),
        speed_over_ground: Some(r32(1.0)),
        true_course: None,
        magnetic_variation: None,
    };
    let values = from_rmc(&rmc);
    let sog = values
        .iter()
        .find(|p| p.path == "navigation.speedOverGround")
        .unwrap();
    let v = number(&sog.value);
    assert!(
        (v - f64::from_bits(KNOTS_TO_MS)).abs() < 1e-6,
        "Expected ~0.514444, got {v}"
    );
}

#[test]
fn sentences_rmc_position_extracted() {
    let rmc = RmcData {
        fix_time: None,
        fix_date: None,
        status_of_fix: RmcStatusOfFix::Autonomous,
        lat: Some(r64(53.5)),
        lon: Some(r64(9.9)),
        speed_over_ground: None,
        true_course: None,
        magnetic_variation: None,
    };
    let values = from_rmc(&rmc);
    let pos = values
        .iter()
        .find(|p| p.path == "navigation.position")
        .unwrap();
    assert_eq!(number(member(&pos.value, "latitude")), 53.5);
    assert_eq!(number(member(&pos.value, "longitude")), 9.9);
}

#[test]
fn sentences_hdt_heading_to_radians() {
    let hdt = HdtData {
        heading: Some(r32(180.0)),
    };
    let values = from_hdt(&hdt);
    let hdg = values
        .iter()
        .find(|p| p.path == "navigation.headingTrue")
        .unwrap();
    let v = number(&hdg.value);
    assert!(
        (v - std::f64::consts::PI).abs() < 1e-6,
        "Expected PI, got {v}"
    );
}

#[test]
fn sentences_dpt_below_transducer() {
    let dpt = DptData {
        water_depth: Some(r64(15.3)),
        offset: None,
    };
    let values = from_dpt(&dpt);
    let depth = values
        .iter()
        .find(|p| p.path == "environment.depth.belowTransducer")
        .unwrap();
    assert!((number(&depth.value) - 15.3).abs() < 1e-6);
}

#[test]
fn sentences_dpt_below_keel_from_negative_offset() {
    let dpt = DptData {
        water_depth: Some(r64(15.3)),
        offset: Some(r64(-1.5)), // transducer is 1.5 m above keel
    };
    let values = from_dpt(&dpt);
    let keel = values
        .iter()
        .find(|p| p.path == "environment.depth.belowKeel")
        .unwrap();
    assert!((number(&keel.value) - 13.8).abs() < 1e-6);
}

#[test]
fn sentences_mwv_apparent_knots_to_ms() {
    let mwv = MwvData {
        wind_direction: Some(r32(45.0)),
        reference: Some(MwvReference::Relative),
        wind_speed: Some(r32(10.0)),
        wind_speed_units: Some(MwvWindSpeedUnits::Knots),
        data_valid: true,
    };
    let values = from_mwv(&mwv);
    let speed = values
        .iter()
        .find(|p| p.path == "environment.wind.speedApparent")
        .unwrap();
    let v = number(&speed.value);
    assert!((v - 10.0 * f64::from_bits(KNOTS_TO_MS)).abs() < 1e-6);
}

#[test]
fn sentences_mwv_invalid_ignored() {
    let mwv = MwvData {
        wind_direction: Some(r32(45.0)),
        reference: Some(MwvReference::Relative),
        wind_speed: Some(r32(10.0)),
        wind_speed_units: Some(MwvWindSpeedUnits::Knots),
        data_valid: false,
    };
    assert!(from_mwv(&mwv).is_empty());
}

#[test]
fn sentences_vtg_cog_to_radians() {
    let vtg = VtgData {
        true_course: Some(r32(90.0)),
        speed_over_ground: None,
    };
    let values = from_vtg(&vtg);
    let cog = values
        .iter()
        .find(|p| p.path == "navigation.courseOverGroundTrue")
        .unwrap();
    let v = number(&cog.value);
    assert!(
        (v - std::f64::consts::FRAC_PI_2).abs() < 1e-6,
        "Expected pi/2, got {v}"
    );
}

#[test]
fn sentences_hdg_all_fields() {
    let hdg = HdgData {
        heading: Some(r32(90.0)),
        deviation: Some(r32(2.0)),
        variation: Some(r32(-3.5)),
    };
    let values = from_hdg(&hdg);
    assert_eq!(values.len(), 3);
    let h = values
        .iter()
        .find(|p| p.path == "navigation.headingMagnetic")
        .unwrap();
    assert!((number(&h.value) - 90.0 * f64::from_bits(DEG_TO_RAD)).abs() < 1e-6);
    let d = values
        .iter()
        .find(|p| p.path == "navigation.magneticDeviation")
        .unwrap();
    assert!((number(&d.value) - 2.0 * f64::from_bits(DEG_TO_RAD)).abs() < 1e-6);
    let v = values
        .iter()
        .find(|p| p.path == "navigation.magneticVariation")
        .unwrap();
    assert!((number(&v.value) - (-3.5) * f64::from_bits(DEG_TO_RAD)).abs() < 1e-6);
}

#[test]
fn sentences_hdm_heading_magnetic() {
    let hdm = HdmData {
        heading: Some(r32(270.0)),
    };
    let values = from_hdm(&hdm);
    assert_eq!(values.len(), 1);
    assert_eq!(values[0].path, "navigation.headingMagnetic");
    assert!((number(&values[0].value) - 270.0 * f64::from_bits(DEG_TO_RAD)).abs() < 1e-6);
}

#[test]
fn sentences_vhw_speed_and_heading() {
    let vhw = VhwData {
        heading_true: Some(r64(180.0)),
        heading_magnetic: Some(r64(177.0)),
        relative_speed_knots: Some(r64(6.5)),
    };
    let values = from_vhw(&vhw);
    let stw = values
        .iter()
        .find(|p| p.path == "navigation.speedThroughWater")
        .unwrap();
    assert!((number(&stw.value) - 6.5 * f64::from_bits(KNOTS_TO_MS)).abs() < 1e-6);
    let ht = values
        .iter()
        .find(|p| p.path == "navigation.headingTrue")
        .unwrap();
    assert!((number(&ht.value) - std::f64::consts::PI).abs() < 1e-6);
    let hm = values
        .iter()
        .find(|p| p.path == "navigation.headingMagnetic")
        .unwrap();
    assert!((number(&hm.value) - 177.0 * f64::from_bits(DEG_TO_RAD)).abs() < 1e-6);
}

#[test]
fn sentences_mtw_celsius_to_kelvin() {
    let mtw = MtwData {
        temperature: Some(r64(22.5)),
    };
    let values = from_mtw(&mtw);
    assert_eq!(values.len(), 1);
    assert_eq!(values[0].path, "environment.water.temperature");
    assert!((number(&values[0].value) - 295.65).abs() < 1e-6);
}

#[test]
fn sentences_rot_deg_per_min_to_rad_per_sec() {
    let rot = RotData {
        rate: Some(r32(30.0)), // 30 deg/min
        valid: Some(true),
    };
    let values = from_rot(&rot);
    assert_eq!(values.len(), 1);
    let expected = 30.0 * f64::from_bits(DEG_TO_RAD) / 60.0;
    assert!((number(&values[0].value) - expected).abs() < 1e-8);
}

#[test]
fn sentences_rot_invalid_ignored() {
    let rot = RotData {
        rate: Some(r32(30.0)),
        valid: Some(false),
    };
    assert!(from_rot(&rot).is_empty());
}

#[test]
fn sentences_mda_pressure_and_temp() {
    let mda = MdaData {
        pressure_bar: Some(r32(1.013)),
        air_temp_deg: Some(r32(20.0)),
        water_temp_deg: Some(r32(15.0)),
        rel_humidity: Some(r32(65.0)),
        dew_point: Some(r32(13.0)),
        wind_direction_true: Some(r32(180.0)),
        wind_speed_knots: None,
        wind_speed_ms: Some(r32(5.0)),
    };
    let values = from_mda(&mda);
    let p = values
        .iter()
        .find(|p| p.path == "environment.outside.pressure")
        .unwrap();
    assert!((number(&p.value) - 101_300.0).abs() < 1.0);
    let air = values
        .iter()
        .find(|p| p.path == "environment.outside.temperature")
        .unwrap();
    assert!((number(&air.value) - 293.15).abs() < 1e-6);
    let water = values
        .iter()
        .find(|p| p.path == "environment.water.temperature")
        .unwrap();
    assert!((number(&water.value) - 288.15).abs() < 1e-6);
    let hum = values
        .iter()
        .find(|p| p.path == "environment.outside.humidity")
        .unwrap();
    assert!((number(&hum.value) - 0.65).abs() < 1e-6);
    let dew = values
        .iter()
        .find(|p| p.path == "environment.outside.dewPointTemperature")
        .unwrap();
    assert!((number(&dew.value) - 286.15).abs() < 1e-6);
    let wdir = values
        .iter()
        .find(|p| p.path == "environment.wind.directionTrue")
        .unwrap();
    assert!((number(&wdir.value) - std::f64::consts::PI).abs() < 1e-6);
    let wspd = values
        .iter()
        .find(|p| p.path == "environment.wind.speedTrue")
        .unwrap();
    assert!((number(&wspd.value) - 5.0).abs() < 1e-6);
}

#[test]
fn sentences_mwd_wind_direction_and_speed() {
    let mwd = MwdData {
        wind_direction_true: Some(r32(270.0)),
        wind_direction_magnetic: Some(r32(267.0)),
        wind_speed_knots: Some(r32(15.0)),
        wind_speed_mps: Some(r32(7.72)),
    };
    let values = from_mwd(&mwd);
    let dt = values
        .iter()
        .find(|p| p.path == "environment.wind.directionTrue")
        .unwrap();
    assert!((number(&dt.value) - 270.0 * f64::from_bits(DEG_TO_RAD)).abs() < 1e-6);
    let dm = values
        .iter()
        .find(|p| p.path == "environment.wind.directionMagnetic")
        .unwrap();
    assert!((number(&dm.value) - 267.0 * f64::from_bits(DEG_TO_RAD)).abs() < 1e-6);
    // Prefers m/s over knots
    let spd = values
        .iter()
        .find(|p| p.path == "environment.wind.speedTrue")
        .unwrap();
    assert!((number(&spd.value) - 7.72).abs() < 1e-6);
}

#[test]
fn sentences_rsa_starboard_and_port() {
    let rsa = RsaData {
        starboard: Some(r32(5.0)),
        starboard_valid: true,
        port: Some(r32(-3.0)),
        port_valid: true,
    };
    let values = from_rsa(&rsa);
    assert_eq!(values.len(), 2);
    let sb = values
        .iter()
        .find(|p| p.path == "steering.rudderAngle")
        .unwrap();
    assert!((number(&sb.value) - 5.0 * f64::from_bits(DEG_TO_RAD)).abs() < 1e-6);
    let pt = values
        .iter()
        .find(|p| p.path == "steering.rudderAnglePort")
        .unwrap();
    assert!((number(&pt.value) - (-3.0) * f64::from_bits(DEG_TO_RAD)).abs() < 1e-6);
}

#[test]
fn sentences_rsa_invalid_ignored() {
    let rsa = RsaData {
        starboard: Some(r32(5.0)),
        starboard_valid: false,
        port: None,
        port_valid: false,
    };
    assert!(from_rsa(&rsa).is_empty());
}

#[test]
fn sentences_rpm_engine_revolutions() {
    let rpm = RpmData {
        source: Some(RpmSource::Engine),
        source_number: Some(1),
        rpm: Some(r32(2400.0)),
        pitch: Some(r32(75.0)),
        valid: true,
    };
    let values = from_rpm(&rpm);
    let rev = values
        .iter()
        .find(|p| p.path == "propulsion.engine1.revolutions")
        .unwrap();
    assert!((number(&rev.value) - 40.0).abs() < 1e-6); // 2400/60
    let pitch = values
        .iter()
        .find(|p| p.path == "propulsion.engine1.pitch")
        .unwrap();
    assert!((number(&pitch.value) - 0.75).abs() < 1e-6); // 75/100
}

#[test]
fn sentences_rpm_invalid_ignored() {
    let rpm = RpmData {
        source: Some(RpmSource::Engine),
        source_number: Some(0),
        rpm: Some(r32(1200.0)),
        pitch: None,
        valid: false,
    };
    assert!(from_rpm(&rpm).is_empty());
}

#[test]
fn sentences_gll_position() {
    let gll = GllData {
        latitude: Some(r64(54.5)),
        longitude: Some(r64(10.0)),
        valid: true,
    };
    let values = from_gll(&gll);
    assert_eq!(values.len(), 1);
    assert_eq!(number(member(&values[0].value, "latitude")), 54.5);
    assert_eq!(number(member(&values[0].value, "longitude")), 10.0);
}

#[test]
fn sentences_gll_invalid_ignored() {
    let gll = GllData {
        latitude: Some(r64(54.5)),
        longitude: Some(r64(10.0)),
        valid: false,
    };
    assert!(from_gll(&gll).is_empty());
}

#[test]
fn sentences_dbt_meters_preferred() {
    let dbt = DbtData {
        depth_feet: Some(r64(49.2)),
        depth_meters: Some(r64(15.0)),
        depth_fathoms: Some(r64(8.2)),
    };
    let values = from_dbt(&dbt);
    assert_eq!(values.len(), 1);
    assert!((number(&values[0].value) - 15.0).abs() < 1e-6);
}

#[test]
fn sentences_dbt_feet_fallback() {
    let dbt = DbtData {
        depth_feet: Some(r64(49.2126)),
        depth_meters: None,
        depth_fathoms: None,
    };
    let values = from_dbt(&dbt);
    assert!((number(&values[0].value) - 49.2126 * f64::from_bits(FEET_TO_M)).abs() < 1e-3);
}

#[test]
fn sentences_dbs_depth_below_surface() {
    let dbs = DbsData {
        water_depth_feet: None,
        water_depth_meters: Some(r32(20.0)),
        water_depth_fathoms: None,
    };
    let values = from_dbs(&dbs);
    assert_eq!(values[0].path, "environment.depth.belowSurface");
    assert!((number(&values[0].value) - 20.0).abs() < 1e-6);
}

#[test]
fn sentences_dbk_depth_below_keel() {
    let dbk = DbkData {
        depth_feet: None,
        depth_meters: Some(r64(3.5)),
        depth_fathoms: None,
    };
    let values = from_dbk(&dbk);
    assert_eq!(values[0].path, "environment.depth.belowKeel");
    assert!((number(&values[0].value) - 3.5).abs() < 1e-6);
}

#[test]
fn sentences_vdr_set_and_drift() {
    let vdr = VdrData {
        direction_true: Some(r32(180.0)),
        speed: Some(r32(1.5)),
    };
    let values = from_vdr(&vdr);
    let set = values
        .iter()
        .find(|p| p.path == "environment.current.setTrue")
        .unwrap();
    assert!((number(&set.value) - std::f64::consts::PI).abs() < 1e-6);
    let drift = values
        .iter()
        .find(|p| p.path == "environment.current.drift")
        .unwrap();
    assert!((number(&drift.value) - 1.5 * f64::from_bits(KNOTS_TO_MS)).abs() < 1e-6);
}

#[test]
fn sentences_vlw_distance_nm_to_meters() {
    let vlw = VlwData {
        total_water_distance: Some(r32(1234.5)),
        trip_water_distance: Some(r32(56.7)),
    };
    let values = from_vlw(&vlw);
    let trip = values
        .iter()
        .find(|p| p.path == "navigation.trip.log")
        .unwrap();
    assert!((number(&trip.value) - 56.7 * f64::from_bits(NM_TO_M)).abs() < 1.0);
    let total = values.iter().find(|p| p.path == "navigation.log").unwrap();
    assert!((number(&total.value) - 1234.5 * f64::from_bits(NM_TO_M)).abs() < 1.0);
}

#[test]
fn sentences_vwr_apparent_wind() {
    let vwr = VwrData {
        wind_angle: Some(r32(-45.0)), // port
        speed_knots: Some(r32(10.0)),
        speed_mps: Some(r32(5.14)),
    };
    let values = from_vwr(&vwr);
    let angle = values
        .iter()
        .find(|p| p.path == "environment.wind.angleApparent")
        .unwrap();
    assert!((number(&angle.value) - (-45.0) * f64::from_bits(DEG_TO_RAD)).abs() < 1e-6);
    // Prefers m/s
    let spd = values
        .iter()
        .find(|p| p.path == "environment.wind.speedApparent")
        .unwrap();
    assert!((number(&spd.value) - 5.14).abs() < 1e-6);
}

#[test]
fn sentences_vwt_true_wind() {
    let vwt = VwtData {
        wind_angle: Some(r32(120.0)),
        speed_knots: Some(r32(20.0)),
        speed_mps: None,
    };
    let values = from_vwt(&vwt);
    let angle = values
        .iter()
        .find(|p| p.path == "environment.wind.angleTrueWater")
        .unwrap();
    assert!((number(&angle.value) - 120.0 * f64::from_bits(DEG_TO_RAD)).abs() < 1e-6);
    let spd = values
        .iter()
        .find(|p| p.path == "environment.wind.speedTrue")
        .unwrap();
    assert!((number(&spd.value) - 20.0 * f64::from_bits(KNOTS_TO_MS)).abs() < 1e-6);
}

#[test]
fn rmb_active_emits_all_fields() {
    let values = from_rmb(&rmb_active());
    assert!(!values.is_empty());

    let pos = values
        .iter()
        .find(|p| p.path == "navigation.courseGreatCircle.nextPoint.position")
        .unwrap();
    assert_eq!(number(member(&pos.value, "latitude")), 54.0);
    assert_eq!(number(member(&pos.value, "longitude")), 10.0);

    let dist = values
        .iter()
        .find(|p| p.path == "navigation.courseGreatCircle.nextPoint.distance")
        .unwrap();
    assert!((number(&dist.value) - f64::from_bits(NM_TO_M)).abs() < 1.0);

    let bearing = values
        .iter()
        .find(|p| p.path == "navigation.courseGreatCircle.nextPoint.bearingTrue")
        .unwrap();
    assert!((number(&bearing.value) - std::f64::consts::FRAC_PI_2).abs() < 1e-6);

    let xte = values
        .iter()
        .find(|p| p.path == "navigation.courseGreatCircle.crossTrackError")
        .unwrap();
    assert!((number(&xte.value) - 0.5 * f64::from_bits(NM_TO_M)).abs() < 1.0);
}

#[test]
fn rmb_void_emits_nothing() {
    let rmb = RmbData {
        status: false,
        cross_track_error: Some(r32(0.5)),
        dest_latitude: Some(r64(54.0)),
        dest_longitude: Some(r64(10.0)),
        range_to_dest: Some(r32(1.0)),
        bearing_to_dest: Some(r32(90.0)),
    };
    assert!(from_rmb(&rmb).is_empty());
}

#[test]
fn rmb_unit_conversions() {
    let values = from_rmb(&rmb_active());
    let dist = values
        .iter()
        .find(|p| p.path == "navigation.courseGreatCircle.nextPoint.distance")
        .unwrap();
    assert_eq!(number(&dist.value), 1852.0);
    let bearing = values
        .iter()
        .find(|p| p.path == "navigation.courseGreatCircle.nextPoint.bearingTrue")
        .unwrap();
    assert!((number(&bearing.value) - std::f64::consts::FRAC_PI_2).abs() < 1e-6);
}

#[test]
fn bwc_position_bearing_distance() {
    let bwc = BwcData {
        latitude: Some(r64(54.5)),
        longitude: Some(r64(10.2)),
        true_bearing: Some(r32(90.0)),
        magnetic_bearing: Some(r32(87.0)),
        distance: Some(r32(2.0)),
    };
    let values = from_bwc(&bwc);
    let pos = values
        .iter()
        .find(|p| p.path == "navigation.courseGreatCircle.nextPoint.position")
        .unwrap();
    assert_eq!(number(member(&pos.value, "latitude")), 54.5);

    let bt = values
        .iter()
        .find(|p| p.path == "navigation.courseGreatCircle.nextPoint.bearingTrue")
        .unwrap();
    assert!((number(&bt.value) - std::f64::consts::FRAC_PI_2).abs() < 1e-5);

    let bm = values
        .iter()
        .find(|p| p.path == "navigation.courseGreatCircle.nextPoint.bearingMagnetic")
        .unwrap();
    assert!((number(&bm.value) - 87.0 * f64::from_bits(DEG_TO_RAD)).abs() < 1e-5);

    let dist = values
        .iter()
        .find(|p| p.path == "navigation.courseGreatCircle.nextPoint.distance")
        .unwrap();
    assert!((number(&dist.value) - 2.0 * f64::from_bits(NM_TO_M)).abs() < 1.0);
}

#[test]
fn bod_bearing_true_and_magnetic() {
    let bod = BodData {
        bearing_true: Some(r32(180.0)),
        bearing_magnetic: Some(r32(177.0)),
    };
    let values = from_bod(&bod);
    let bt = values
        .iter()
        .find(|p| p.path == "navigation.courseGreatCircle.bearingTrackTrue")
        .unwrap();
    assert!((number(&bt.value) - std::f64::consts::PI).abs() < 1e-6);
    let bm = values
        .iter()
        .find(|p| p.path == "navigation.courseGreatCircle.bearingTrackMagnetic")
        .unwrap();
    assert!((number(&bm.value) - 177.0 * f64::from_bits(DEG_TO_RAD)).abs() < 1e-5);
}

#[test]
fn xte_fault_emits_nothing() {
    let xte = XteData {
        cross_track_error: Some(r32(0.1)),
        status_general: false,
    };
    assert!(from_xte(&xte).is_empty());
}

#[test]
fn xte_nm_to_m() {
    let xte = XteData {
        cross_track_error: Some(r32(0.5)),
        status_general: true,
    };
    let values = from_xte(&xte);
    assert_eq!(values.len(), 1);
    assert_eq!(
        values[0].path,
        "navigation.courseGreatCircle.crossTrackError"
    );
    assert!((number(&values[0].value) - 0.5 * f64::from_bits(NM_TO_M)).abs() < 1.0);
}

#[test]
fn depth_dpt_below_transducer() {
    let dpt = DptData {
        water_depth: Some(r64(15.3)),
        offset: None,
    };
    let values = from_dpt(&dpt);
    let depth = values
        .iter()
        .find(|p| p.path == "environment.depth.belowTransducer")
        .unwrap();
    assert!((number(&depth.value) - 15.3).abs() < 1e-6);
}

#[test]
fn depth_dpt_below_keel_from_negative_offset() {
    let dpt = DptData {
        water_depth: Some(r64(15.3)),
        offset: Some(r64(-1.5)), // transducer is 1.5 m above keel
    };
    let values = from_dpt(&dpt);
    let keel = values
        .iter()
        .find(|p| p.path == "environment.depth.belowKeel")
        .unwrap();
    assert!((number(&keel.value) - 13.8).abs() < 1e-6);
}

#[test]
fn depth_dbt_meters_preferred() {
    let dbt = DbtData {
        depth_feet: Some(r64(49.2)),
        depth_meters: Some(r64(15.0)),
        depth_fathoms: Some(r64(8.2)),
    };
    let values = from_dbt(&dbt);
    assert_eq!(values.len(), 1);
    assert!((number(&values[0].value) - 15.0).abs() < 1e-6);
}

#[test]
fn depth_dbt_feet_fallback() {
    let dbt = DbtData {
        depth_feet: Some(r64(49.2126)),
        depth_meters: None,
        depth_fathoms: None,
    };
    let values = from_dbt(&dbt);
    assert!((number(&values[0].value) - 49.2126 * f64::from_bits(FEET_TO_M)).abs() < 1e-3);
}

#[test]
fn depth_dbs_depth_below_surface() {
    let dbs = DbsData {
        water_depth_feet: None,
        water_depth_meters: Some(r32(20.0)),
        water_depth_fathoms: None,
    };
    let values = from_dbs(&dbs);
    assert_eq!(values[0].path, "environment.depth.belowSurface");
    assert!((number(&values[0].value) - 20.0).abs() < 1e-6);
}

#[test]
fn depth_dbk_depth_below_keel() {
    let dbk = DbkData {
        depth_feet: None,
        depth_meters: Some(r64(3.5)),
        depth_fathoms: None,
    };
    let values = from_dbk(&dbk);
    assert_eq!(values[0].path, "environment.depth.belowKeel");
    assert!((number(&values[0].value) - 3.5).abs() < 1e-6);
}

#[test]
fn environment_mtw_celsius_to_kelvin() {
    let mtw = MtwData {
        temperature: Some(r64(22.5)),
    };
    let values = from_mtw(&mtw);
    assert_eq!(values.len(), 1);
    assert_eq!(values[0].path, "environment.water.temperature");
    assert!((number(&values[0].value) - 295.65).abs() < 1e-6);
}

#[test]
fn environment_mda_pressure_and_temp() {
    let mda = MdaData {
        pressure_bar: Some(r32(1.013)),
        air_temp_deg: Some(r32(20.0)),
        water_temp_deg: Some(r32(15.0)),
        rel_humidity: Some(r32(65.0)),
        dew_point: Some(r32(13.0)),
        wind_direction_true: Some(r32(180.0)),
        wind_speed_knots: None,
        wind_speed_ms: Some(r32(5.0)),
    };
    let values = from_mda(&mda);
    let p = values
        .iter()
        .find(|p| p.path == "environment.outside.pressure")
        .unwrap();
    assert!((number(&p.value) - 101_300.0).abs() < 1.0);
    let air = values
        .iter()
        .find(|p| p.path == "environment.outside.temperature")
        .unwrap();
    assert!((number(&air.value) - 293.15).abs() < 1e-6);
    let water = values
        .iter()
        .find(|p| p.path == "environment.water.temperature")
        .unwrap();
    assert!((number(&water.value) - 288.15).abs() < 1e-6);
    let hum = values
        .iter()
        .find(|p| p.path == "environment.outside.humidity")
        .unwrap();
    assert!((number(&hum.value) - 0.65).abs() < 1e-6);
    let dew = values
        .iter()
        .find(|p| p.path == "environment.outside.dewPointTemperature")
        .unwrap();
    assert!((number(&dew.value) - 286.15).abs() < 1e-6);
    let wdir = values
        .iter()
        .find(|p| p.path == "environment.wind.directionTrue")
        .unwrap();
    assert!((number(&wdir.value) - std::f64::consts::PI).abs() < 1e-6);
    let wspd = values
        .iter()
        .find(|p| p.path == "environment.wind.speedTrue")
        .unwrap();
    assert!((number(&wspd.value) - 5.0).abs() < 1e-6);
}

#[test]
fn environment_vdr_set_and_drift() {
    let vdr = VdrData {
        direction_true: Some(r32(180.0)),
        speed: Some(r32(1.5)),
    };
    let values = from_vdr(&vdr);
    let set = values
        .iter()
        .find(|p| p.path == "environment.current.setTrue")
        .unwrap();
    assert!((number(&set.value) - std::f64::consts::PI).abs() < 1e-6);
    let drift = values
        .iter()
        .find(|p| p.path == "environment.current.drift")
        .unwrap();
    assert!((number(&drift.value) - 1.5 * f64::from_bits(KNOTS_TO_MS)).abs() < 1e-6);
}

#[test]
fn environment_vlw_distance_nm_to_meters() {
    let vlw = VlwData {
        total_water_distance: Some(r32(1234.5)),
        trip_water_distance: Some(r32(56.7)),
    };
    let values = from_vlw(&vlw);
    let trip = values
        .iter()
        .find(|p| p.path == "navigation.trip.log")
        .unwrap();
    assert!((number(&trip.value) - 56.7 * f64::from_bits(NM_TO_M)).abs() < 1.0);
    let total = values.iter().find(|p| p.path == "navigation.log").unwrap();
    assert!((number(&total.value) - 1234.5 * f64::from_bits(NM_TO_M)).abs() < 1.0);
}

#[test]
fn zda_builds_iso8601() {
    let zda = ZdaData {
        utc_time: clock(12, 34, 56, 789),
        day: Some(15),
        month: Some(6),
        year: Some(2024),
    };
    let values = from_zda(&zda);
    assert_eq!(values.len(), 4); // datetime + millis + timezoneOffset + timezoneRegion
    let dt = values
        .iter()
        .find(|p| p.path == "navigation.datetime")
        .unwrap();
    assert_eq!(text_of(&dt.value), "2024-06-15T12:34:56.789Z");
}

#[test]
fn zda_writes_environment_time_paths() {
    let zda = ZdaData {
        utc_time: clock(12, 0, 0, 0),
        day: Some(15),
        month: Some(6),
        year: Some(2024),
    };
    let values = from_zda(&zda);

    let millis = values
        .iter()
        .find(|p| p.path == "environment.time.millis")
        .unwrap();
    assert!(number(&millis.value) as i64 > 0);
    // 2024-06-15T12:00:00Z in ms = 1718452800000
    assert_eq!(number(&millis.value) as i64, 1718452800000_i64);

    let offset = values
        .iter()
        .find(|p| p.path == "environment.time.timezoneOffset")
        .unwrap();
    assert_eq!(number(&offset.value) as i64, 0);

    let region = values
        .iter()
        .find(|p| p.path == "environment.time.timezoneRegion")
        .unwrap();
    assert_eq!(text_of(&region.value), "UTC");
}

#[test]
fn zda_missing_date_emits_nothing() {
    let zda = ZdaData {
        utc_time: clock(10, 0, 0, 0),
        day: None,
        month: Some(1),
        year: Some(2024),
    };
    assert!(from_zda(&zda).is_empty());
}

#[test]
fn gsa_hdop_and_pdop() {
    let gsa = GsaData {
        fix_satellites: 0,
        pdop: Some(r32(1.8)),
        hdop: Some(r32(1.2)),
    };
    let values = from_gsa(&gsa);
    let hdop = values
        .iter()
        .find(|p| p.path == "navigation.gnss.horizontalDilution")
        .unwrap();
    assert!((number(&hdop.value) - 1.2).abs() < 1e-5);
    let pdop = values
        .iter()
        .find(|p| p.path == "navigation.gnss.positionDilution")
        .unwrap();
    assert!((number(&pdop.value) - 1.8).abs() < 1e-5);
    // No satellites (empty fix_sats_prn)
    assert!(
        values
            .iter()
            .all(|p| p.path != "navigation.gnss.satellites")
    );
}

#[test]
fn gns_position_and_satellites() {
    let raw = "$GPGNS,224749.00,3333.4268304,N,11153.3538273,W,D,19,0.6,406.110,-26.294,6.0,0138,S,*46";
    let delta = sentence_to_delta(raw, None, "gnss").unwrap();
    let values = &delta.updates[0].values;

    let pos = values
        .iter()
        .find(|p| p.path == "navigation.position")
        .unwrap();
    assert!(number(member(&pos.value, "latitude")).abs() > 0.0);

    let sats = values
        .iter()
        .find(|p| p.path == "navigation.gnss.satellites")
        .unwrap();
    assert_eq!(number(&sats.value) as u64, 19);

    let method = values
        .iter()
        .find(|p| p.path == "navigation.gnss.methodQuality")
        .unwrap();
    // nav_status = S (Safe) -> "GNSS"
    assert_eq!(text_of(&method.value), "GNSS");
}

#[test]
fn heading_hdt_heading_to_radians() {
    let hdt = HdtData {
        heading: Some(r32(180.0)),
    };
    let values = from_hdt(&hdt);
    let hdg = values
        .iter()
        .find(|p| p.path == "navigation.headingTrue")
        .unwrap();
    let v = number(&hdg.value);
    assert!(
        (v - std::f64::consts::PI).abs() < 1e-6,
        "Expected PI, got {v}"
    );
}

#[test]
fn heading_hdg_all_fields() {
    let hdg = HdgData {
        heading: Some(r32(90.0)),
        deviation: Some(r32(2.0)),
        variation: Some(r32(-3.5)),
    };
    let values = from_hdg(&hdg);
    assert_eq!(values.len(), 3);
    let h = values
        .iter()
        .find(|p| p.path == "navigation.headingMagnetic")
        .unwrap();
    assert!((number(&h.value) - 90.0 * f64::from_bits(DEG_TO_RAD)).abs() < 1e-6);
    let d = values
        .iter()
        .find(|p| p.path == "navigation.magneticDeviation")
        .unwrap();
    assert!((number(&d.value) - 2.0 * f64::from_bits(DEG_TO_RAD)).abs() < 1e-6);
    let v = values
        .iter()
        .find(|p| p.path == "navigation.magneticVariation")
        .unwrap();
    assert!((number(&v.value) - (-3.5) * f64::from_bits(DEG_TO_RAD)).abs() < 1e-6);
}

#[test]
fn heading_hdm_heading_magnetic() {
    let hdm = HdmData {
        heading: Some(r32(270.0)),
    };
    let values = from_hdm(&hdm);
    assert_eq!(values.len(), 1);
    assert_eq!(values[0].path, "navigation.headingMagnetic");
    assert!((number(&values[0].value) - 270.0 * f64::from_bits(DEG_TO_RAD)).abs() < 1e-6);
}

#[test]
fn heading_vhw_speed_and_heading() {
    let vhw = VhwData {
        heading_true: Some(r64(180.0)),
        heading_magnetic: Some(r64(177.0)),
        relative_speed_knots: Some(r64(6.5)),
    };
    let values = from_vhw(&vhw);
    let stw = values
        .iter()
        .find(|p| p.path == "navigation.speedThroughWater")
        .unwrap();
    assert!((number(&stw.value) - 6.5 * f64::from_bits(KNOTS_TO_MS)).abs() < 1e-6);
    let ht = values
        .iter()
        .find(|p| p.path == "navigation.headingTrue")
        .unwrap();
    assert!((number(&ht.value) - std::f64::consts::PI).abs() < 1e-6);
    let hm = values
        .iter()
        .find(|p| p.path == "navigation.headingMagnetic")
        .unwrap();
    assert!((number(&hm.value) - 177.0 * f64::from_bits(DEG_TO_RAD)).abs() < 1e-6);
}

#[test]
fn heading_rot_deg_per_min_to_rad_per_sec() {
    let rot = RotData {
        rate: Some(r32(30.0)), // 30 deg/min
        valid: Some(true),
    };
    let values = from_rot(&rot);
    assert_eq!(values.len(), 1);
    let expected = 30.0 * f64::from_bits(DEG_TO_RAD) / 60.0;
    assert!((number(&values[0].value) - expected).abs() < 1e-8);
}

#[test]
fn heading_rot_invalid_ignored() {
    let rot = RotData {
        rate: Some(r32(30.0)),
        valid: Some(false),
    };
    assert!(from_rot(&rot).is_empty());
}

#[test]
fn position_rmc_speed_converted_to_ms() {
    let rmc = RmcData {
        fix_time: None,
        fix_date: None,
        status_of_fix: RmcStatusOfFix::Autonomous,
        lat: Some(r64(53.0)),
        lon: Some(r64(9.0)),
        speed_over_ground: Some(r32(1.0)),
        true_course: None,
        magnetic_variation: None,
    };
    let values = from_rmc(&rmc);
    let sog = values
        .iter()
        .find(|p| p.path == "navigation.speedOverGround")
        .unwrap();
    let v = number(&sog.value);
    assert!(
        (v - f64::from_bits(KNOTS_TO_MS)).abs() < 1e-6,
        "Expected ~0.514444, got {v}"
    );
}

#[test]
fn position_rmc_position_extracted() {
    let rmc = RmcData {
        fix_time: None,
        fix_date: None,
        status_of_fix: RmcStatusOfFix::Autonomous,
        lat: Some(r64(53.5)),
        lon: Some(r64(9.9)),
        speed_over_ground: None,
        true_course: None,
        magnetic_variation: None,
    };
    let values = from_rmc(&rmc);
    let pos = values
        .iter()
        .find(|p| p.path == "navigation.position")
        .unwrap();
    assert_eq!(number(member(&pos.value, "latitude")), 53.5);
    assert_eq!(number(member(&pos.value, "longitude")), 9.9);
}

#[test]
fn rmc_valid_fix_writes_datetime_and_time_paths() {
    let rmc = RmcData {
        fix_time: clock(12, 0, 0, 0),
        fix_date: Some(CalendarDate { year: 2024, month: 6, day: 15 }),
        status_of_fix: RmcStatusOfFix::Autonomous,
        lat: None,
        lon: None,
        speed_over_ground: None,
        true_course: None,
        magnetic_variation: None,
    };
    let values = from_rmc(&rmc);

    let dt = values
        .iter()
        .find(|p| p.path == "navigation.datetime")
        .unwrap();
    assert_eq!(text_of(&dt.value), "2024-06-15T12:00:00.000Z");

    let millis = values
        .iter()
        .find(|p| p.path == "environment.time.millis")
        .unwrap();
    assert!(number(&millis.value) as i64 > 0);

    let offset = values
        .iter()
        .find(|p| p.path == "environment.time.timezoneOffset")
        .unwrap();
    assert_eq!(number(&offset.value) as i64, 0);

    let region = values
        .iter()
        .find(|p| p.path == "environment.time.timezoneRegion")
        .unwrap();
    assert_eq!(text_of(&region.value), "UTC");
}

#[test]
fn rmc_invalid_fix_does_not_write_time_paths() {
    let rmc = RmcData {
        fix_time: clock(12, 0, 0, 0),
        fix_date: Some(CalendarDate { year: 2024, month: 6, day: 15 }),
        status_of_fix: RmcStatusOfFix::Invalid,
        lat: None,
        lon: None,
        speed_over_ground: None,
        true_course: None,
        magnetic_variation: None,
    };
    let values = from_rmc(&rmc);
    assert!(!values.iter().any(|p| p.path == "navigation.datetime"));
    assert!(!values.iter().any(|p| p.path == "environment.time.millis"));
}

#[test]
fn rmc_missing_date_does_not_write_time_paths() {
    let rmc = RmcData {
        fix_time: clock(12, 0, 0, 0),
        fix_date: None, // no date
        status_of_fix: RmcStatusOfFix::Autonomous,
        lat: None,
        lon: None,
        speed_over_ground: None,
        true_course: None,
        magnetic_variation: None,
    };
    let values = from_rmc(&rmc);
    assert!(!values.iter().any(|p| p.path == "navigation.datetime"));
    assert!(!values.iter().any(|p| p.path == "environment.time.millis"));
}

#[test]
fn position_vtg_cog_to_radians() {
    let vtg = VtgData {
        true_course: Some(r32(90.0)),
        speed_over_ground: None,
    };
    let values = from_vtg(&vtg);
    let cog = values
        .iter()
        .find(|p| p.path == "navigation.courseOverGroundTrue")
        .unwrap();
    let v = number(&cog.value);
    assert!(
        (v - std::f64::consts::FRAC_PI_2).abs() < 1e-6,
        "Expected pi/2, got {v}"
    );
}

#[test]
fn position_gll_position() {
    let gll = GllData {
        latitude: Some(r64(54.5)),
        longitude: Some(r64(10.0)),
        valid: true,
    };
    let values = from_gll(&gll);
    assert_eq!(values.len(), 1);
    assert_eq!(number(member(&values[0].value, "latitude")), 54.5);
    assert_eq!(number(member(&values[0].value, "longitude")), 10.0);
}

#[test]
fn position_gll_invalid_ignored() {
    let gll = GllData {
        latitude: Some(r64(54.5)),
        longitude: Some(r64(10.0)),
        valid: false,
    };
    assert!(from_gll(&gll).is_empty());
}

#[test]
fn propulsion_rsa_starboard_and_port() {
    let rsa = RsaData {
        starboard: Some(r32(5.0)),
        starboard_valid: true,
        port: Some(r32(-3.0)),
        port_valid: true,
    };
    let values = from_rsa(&rsa);
    assert_eq!(values.len(), 2);
    let sb = values
        .iter()
        .find(|p| p.path == "steering.rudderAngle")
        .unwrap();
    assert!((number(&sb.value) - 5.0 * f64::from_bits(DEG_TO_RAD)).abs() < 1e-6);
    let pt = values
        .iter()
        .find(|p| p.path == "steering.rudderAnglePort")
        .unwrap();
    assert!((number(&pt.value) - (-3.0) * f64::from_bits(DEG_TO_RAD)).abs() < 1e-6);
}

#[test]
fn propulsion_rsa_invalid_ignored() {
    let rsa = RsaData {
        starboard: Some(r32(5.0)),
        starboard_valid: false,
        port: None,
        port_valid: false,
    };
    assert!(from_rsa(&rsa).is_empty());
}

#[test]
fn propulsion_rpm_engine_revolutions() {
    let rpm = RpmData {
        source: Some(RpmSource::Engine),
        source_number: Some(1),
        rpm: Some(r32(2400.0)),
        pitch: Some(r32(75.0)),
        valid: true,
    };
    let values = from_rpm(&rpm);
    let rev = values
        .iter()
        .find(|p| p.path == "propulsion.engine1.revolutions")
        .unwrap();
    assert!((number(&rev.value) - 40.0).abs() < 1e-6); // 2400/60
    let pitch = values
        .iter()
        .find(|p| p.path == "propulsion.engine1.pitch")
        .unwrap();
    assert!((number(&pitch.value) - 0.75).abs() < 1e-6); // 75/100
}

#[test]
fn propulsion_rpm_invalid_ignored() {
    let rpm = RpmData {
        source: Some(RpmSource::Engine),
        source_number: Some(0),
        rpm: Some(r32(1200.0)),
        pitch: None,
        valid: false,
    };
    assert!(from_rpm(&rpm).is_empty());
}

#[test]
fn wind_mwv_apparent_knots_to_ms() {
    let mwv = MwvData {
        wind_direction: Some(r32(45.0)),
        reference: Some(MwvReference::Relative),
        wind_speed: Some(r32(10.0)),
        wind_speed_units: Some(MwvWindSpeedUnits::Knots),
        data_valid: true,
    };
    let values = from_mwv(&mwv);
    let speed = values
        .iter()
        .find(|p| p.path == "environment.wind.speedApparent")
        .unwrap();
    let v = number(&speed.value);
    assert!((v - 10.0 * f64::from_bits(KNOTS_TO_MS)).abs() < 1e-6);
}

#[test]
fn wind_mwv_invalid_ignored() {
    let mwv = MwvData {
        wind_direction: Some(r32(45.0)),
        reference: Some(MwvReference::Relative),
        wind_speed: Some(r32(10.0)),
        wind_speed_units: Some(MwvWindSpeedUnits::Knots),
        data_valid: false,
    };
    assert!(from_mwv(&mwv).is_empty());
}

#[test]
fn wind_mwd_wind_direction_and_speed() {
    let mwd = MwdData {
        wind_direction_true: Some(r32(270.0)),
        wind_direction_magnetic: Some(r32(267.0)),
        wind_speed_knots: Some(r32(15.0)),
        wind_speed_mps: Some(r32(7.72)),
    };
    let values = from_mwd(&mwd);
    let dt = values
        .iter()
        .find(|p| p.path == "environment.wind.directionTrue")
        .unwrap();
    assert!((number(&dt.value) - 270.0 * f64::from_bits(DEG_TO_RAD)).abs() < 1e-6);
    let dm = values
        .iter()
        .find(|p| p.path == "environment.wind.directionMagnetic")
        .unwrap();
    assert!((number(&dm.value) - 267.0 * f64::from_bits(DEG_TO_RAD)).abs() < 1e-6);
    // Prefers m/s over knots
    let spd = values
        .iter()
        .find(|p| p.path == "environment.wind.speedTrue")
        .unwrap();
    assert!((number(&spd.value) - 7.72).abs() < 1e-6);
}

#[test]
fn wind_vwr_apparent_wind() {
    let vwr = VwrData {
        wind_angle: Some(r32(-45.0)), // port
        speed_knots: Some(r32(10.0)),
        speed_mps: Some(r32(5.14)),
    };
    let values = from_vwr(&vwr);
    let angle = values
        .iter()
        .find(|p| p.path == "environment.wind.angleApparent")
        .unwrap();
    assert!((number(&angle.value) - (-45.0) * f64::from_bits(DEG_TO_RAD)).abs() < 1e-6);
    // Prefers m/s
    let spd = values
        .iter()
        .find(|p| p.path == "environment.wind.speedApparent")
        .unwrap();
    assert!((number(&spd.value) - 5.14).abs() < 1e-6);
}

#[test]
fn wind_vwt_true_wind() {
    let vwt = VwtData {
        wind_angle: Some(r32(120.0)),
        speed_knots: Some(r32(20.0)),
        speed_mps: None,
    };
    let values = from_vwt(&vwt);
    let angle = values
        .iter()
        .find(|p| p.path == "environment.wind.angleTrueWater")
        .unwrap();
    assert!((number(&angle.value) - 120.0 * f64::from_bits(DEG_TO_RAD)).abs() < 1e-6);
    let spd = values
        .iter()
        .find(|p| p.path == "environment.wind.speedTrue")
        .unwrap();
    assert!((number(&spd.value) - 20.0 * f64::from_bits(KNOTS_TO_MS)).abs() < 1e-6);
}


#[test]
fn gga_fix_types_are_named() {
    let mut gga = GgaData {
        fix_type: Some(FixType::DGps),
        latitude: Some(r64(54.5)),
        longitude: Some(r64(10.0)),
        fix_satellites: Some(8),
        hdop: Some(r32(0.9)),
        altitude: Some(r32(12.5)),
    };
    let values = from_gga(&gga);
    let position = find(&values, "navigation.position").unwrap();
    assert_eq!(number(member(position, "altitude")), 12.5);
    assert_eq!(number(find(&values, "navigation.gnss.satellites").unwrap()), 8.0);
    gga.fix_type = Some(FixType::Invalid);
    let invalid = from_gga(&gga);
    let quality = |list: &[PathValue]| {
        text_of(find(list, "navigation.gnss.methodQuality").unwrap()).to_string()
    };
    assert_eq!(quality(&values), "DGNSS");
    assert_eq!(quality(&invalid), "no GPS");
}

#[test]
fn dbs_falls_back_on_feet_and_fathoms() {
    let feet = DbsData {
        water_depth_meters: None,
        water_depth_feet: Some(r32(10.0)),
        water_depth_fathoms: Some(r32(9.0)),
    };
    let values = from_dbs(&feet);
    assert!((number(&values[0].value) - 3.048).abs() < 1e-9);
    let fathoms = DbsData { water_depth_feet: None, ..feet };
    assert!((number(&from_dbs(&fathoms)[0].value) - 9.0 * 1.8288).abs() < 1e-9);
}

#[test]
fn mwv_units() {
    let mut mwv = MwvData {
        wind_direction: Some(r32(45.0)),
        reference: Some(MwvReference::Theoretical),
        wind_speed: Some(r32(36.0)),
        wind_speed_units: Some(MwvWindSpeedUnits::KilometersPerHour),
        data_valid: true,
    };
    let values = from_mwv(&mwv);
    assert!(values.iter().any(|pv| (number(&pv.value) - 10.0).abs() < 1e-9));
    mwv.wind_speed_units = Some(MwvWindSpeedUnits::MetersPerSecond);
    assert!(from_mwv(&mwv).iter().any(|pv| number(&pv.value) == 36.0));
}

/// The texts and times that a fix at a date and a time reports.
fn reported_time(date: (i32, u32, u32), time: (u32, u32, u32, u32)) -> Option<(String, i64)> {
    let rmc = RmcData {
        fix_time: Some(ClockTime {
            hour: time.0,
            minute: time.1,
            second: time.2,
            nanosecond: time.3,
        }),
        fix_date: Some(CalendarDate { year: date.0, month: date.1, day: date.2 }),
        status_of_fix: RmcStatusOfFix::Autonomous,
        lat: None,
        lon: None,
        speed_over_ground: None,
        true_course: None,
        magnetic_variation: None,
    };
    let values = from_rmc(&rmc);
    let text = text_of(find(&values, "navigation.datetime")?).to_string();
    Some((text, number(find(&values, "environment.time.millis").unwrap()) as i64))
}

#[test]
fn fix_times_follow_the_gregorian_calendar() {
    let cases: [(i32, u32, u32, u32, u32, u32, u32, &str, i64); 9] = [
        (1970, 1, 1, 0, 0, 0, 0, "1970-01-01T00:00:00.000Z", 0),
        (2024, 2, 29, 23, 59, 59, 999999999, "2024-02-29T23:59:59.999Z", 1709251199999),
        (2000, 2, 29, 12, 0, 0, 0, "2000-02-29T12:00:00.000Z", 951825600000),
        (2016, 12, 31, 23, 59, 59, 1500000000, "2016-12-31T23:59:60.500Z", 1483228800500),
        (1969, 12, 31, 23, 59, 59, 250000000, "1969-12-31T23:59:59.250Z", -750),
        (7, 3, 4, 5, 6, 7, 8000000, "0007-03-04T05:06:07.008Z", -61940919232992),
        (-1, 12, 31, 0, 0, 0, 0, "-0001-12-31T00:00:00.000Z", -62167305600000),
        (12345, 6, 7, 8, 9, 10, 0, "+12345-06-07T08:09:10.000Z", 327416976550000),
        (262142, 12, 31, 0, 0, 0, 0, "+262142-12-31T00:00:00.000Z", 8210266790400000),
    ];
    for (year, month, day, hour, minute, second, nano, text, millis) in cases {
        let r = reported_time((year, month, day), (hour, minute, second, nano));
        assert_eq!(r, Some((text.to_string(), millis)));
    }
}

#[test]
fn fix_times_that_do_not_exist_are_left_out() {
    let noon = (12, 0, 0, 0);
    assert!(reported_time((2024, 2, 29), noon).is_some());
    assert!(reported_time((2023, 2, 29), noon).is_none());
    assert!(reported_time((1900, 2, 29), noon).is_none());
    assert!(reported_time((2024, 4, 31), noon).is_none());
    assert!(reported_time((2024, 0, 1), noon).is_none());
    assert!(reported_time((2024, 13, 1), noon).is_none());
    assert!(reported_time((2024, 1, 0), noon).is_none());
    assert!(reported_time((262_143, 1, 1), noon).is_none());
    assert!(reported_time((-262_143, 1, 1), noon).is_some());
    assert!(reported_time((-262_144, 12, 31), noon).is_none());
    let day = (2024, 1, 1);
    assert!(reported_time(day, (24, 0, 0, 0)).is_none());
    assert!(reported_time(day, (0, 60, 0, 0)).is_none());
    assert!(reported_time(day, (0, 0, 60, 0)).is_none());
    assert!(reported_time(day, (0, 0, 58, 1_000_000_000)).is_none());
    assert!(reported_time(day, (0, 0, 59, 1_000_000_000)).is_some());
    assert!(reported_time(day, (0, 0, 59, 2_000_000_000)).is_none());
}
