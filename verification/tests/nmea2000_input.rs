#![allow(dead_code)]
use signalk_plugins::expr::Expr;
use signalk_plugins::nmea2000::environment::{
    Temperature, TemperatureSource, WindData, WindReference,
};
use signalk_plugins::nmea2000::navigation::{
    Attitude, CogSogRapidUpdate, CrossTrackError, DirectionReference, DistanceLog,
    PositionRapidUpdate, RateOfTurn, TimeDate, VesselHeading, WaterDepth,
};
use signalk_plugins::nmea2000::propulsion::{
    BatteryStatus, EngineParametersDynamic, EngineParametersRapidUpdate, Rudder,
};
use signalk_plugins::nmea2000::vessels::{AisClassAPositionReport, AisClassBPositionReport};
use signalk_plugins::nmea2000::{
    choose_transport, decoded_to_delta, DecodedMessage, N2kConfig, N2kSource, Transport,
};
use signalk_plugins::number::Real;
use signalk_plugins::signalk::{PathValue, Value};

fn r64(x: f64) -> Real {
    Real { bits: x.to_bits() }
}

fn float(r: Real) -> f64 {
    f64::from_bits(r.bits)
}

/// Carries out a formula.
fn eval(e: &Expr) -> f64 {
    let half: f64 = std::f64::consts::PI;
    match e {
        Expr::Lit(r) => float(*r),
        Expr::Single(bits) => f32::from_bits(*bits) as f64,
        Expr::Int(i) => *i as f64,
        Expr::Uint(u) => *u as f64,
        Expr::Neg(a) => -eval(a),
        Expr::Abs(a) => eval(a).abs(),
        Expr::Sqrt(a) => eval(a).sqrt(),
        Expr::Sin(a) => eval(a).sin(),
        Expr::Cos(a) => eval(a).cos(),
        Expr::Asin(a) => eval(a).asin(),
        Expr::Atan(a) => eval(a).atan(),
        Expr::Exp(a) => eval(a).exp(),
        Expr::Floor(a) => eval(a).floor(),
        Expr::Round(a) => eval(a).round(),
        Expr::Signum(a) => eval(a).signum(),
        Expr::Wrap(a) => {
            let mut x = eval(a);
            while x > half {
                x -= 2.0 * half;
            }
            while x < -half {
                x += 2.0 * half;
            }
            x
        }
        Expr::ToRadians(a) => eval(a).to_radians(),
        Expr::ToDegrees(a) => eval(a).to_degrees(),
        Expr::ToSingle(a) => eval(a) as f32 as f64,
        Expr::ToWord(a) => eval(a) as u32 as f64,
        Expr::Add(a, b) => eval(a) + eval(b),
        Expr::Sub(a, b) => eval(a) - eval(b),
        Expr::Mul(a, b) => eval(a) * eval(b),
        Expr::Div(a, b) => eval(a) / eval(b),
        Expr::Rem(a, b) => eval(a) % eval(b),
        Expr::RemEuclid(a, b) => eval(a).rem_euclid(eval(b)),
        Expr::Atan2(a, b) => eval(a).atan2(eval(b)),
        Expr::Powf(a, b) => eval(a).powf(eval(b)),
        Expr::Min(a, b) => eval(a).min(eval(b)),
        Expr::Max(a, b) => eval(a).max(eval(b)),
        Expr::Clamp(a, lo, hi) => eval(a).clamp(eval(lo), eval(hi)),
        Expr::IfLess(a, b, yes, no) => {
            if eval(a) < eval(b) {
                eval(yes)
            } else {
                eval(no)
            }
        }
    }
}

fn find<'a>(values: &'a [PathValue], path: &str) -> Option<&'a Value> {
    values.iter().find(|pv| pv.path == path).map(|pv| &pv.value)
}

fn number(v: &Value) -> f64 {
    match v {
        Value::Number(e) => eval(e),
        Value::Int(i) => *i as f64,
        _ => panic!("not a number: {v:?}"),
    }
}

fn text_of(v: &Value) -> &str {
    match v {
        Value::Text(s) => s.as_str(),
        _ => panic!("not a text: {v:?}"),
    }
}

fn member<'a>(v: &'a Value, key: &str) -> &'a Value {
    match v {
        Value::Object(fields) => &fields.iter().find(|f| f.key == key).unwrap().value,
        _ => panic!("not an object: {v:?}"),
    }
}

fn test_source(pgn: u32) -> N2kSource<'static> {
    N2kSource { label: "n2k", src: 0, pgn }
}

#[test]
fn pgn_convert_vessel_heading_true() {
    let msg = VesselHeading {
        heading: Some(r64(1.5)),
        reference: Some(DirectionReference::True),
        variation: None,
    };
    let decoded = DecodedMessage::VesselHeading(msg);
    let delta = decoded_to_delta(&decoded, &test_source(127250)).unwrap();
    assert_eq!(delta.context.as_deref(), Some("vessels.self"));
    let values = &delta.updates[0].values;
    assert_eq!(values[0].path, "navigation.headingTrue");
    let hdg = number(&values[0].value);
    assert!((hdg - 1.5).abs() < 0.001);
}

#[test]
fn pgn_convert_vessel_heading_magnetic() {
    let msg = VesselHeading {
        heading: Some(r64(2.0)),
        reference: Some(DirectionReference::Magnetic),
        variation: Some(r64(0.05)),
    };
    let decoded = DecodedMessage::VesselHeading(msg);
    let delta = decoded_to_delta(&decoded, &test_source(127250)).unwrap();
    let values = &delta.updates[0].values;
    assert_eq!(values[0].path, "navigation.headingMagnetic");
    assert!(
        values
            .iter()
            .any(|v| v.path == "navigation.magneticVariation")
    );
}

#[test]
fn pgn_convert_position_rapid_update() {
    let msg = PositionRapidUpdate {
        latitude: Some(r64(54.123)),
        longitude: Some(r64(10.456)),
    };
    let decoded = DecodedMessage::PositionRapidUpdate(msg);
    let delta = decoded_to_delta(&decoded, &test_source(129025)).unwrap();
    let pos = &delta.updates[0].values[0];
    assert_eq!(pos.path, "navigation.position");
    let lat = number(member(&pos.value, "latitude"));
    let lon = number(member(&pos.value, "longitude"));
    assert!((lat - 54.123).abs() < 1e-5);
    assert!((lon - 10.456).abs() < 1e-5);
}

#[test]
fn pgn_convert_cog_sog_rapid() {
    let msg = CogSogRapidUpdate {
        cog: Some(r64(1.0)),
        cog_reference: Some(DirectionReference::True),
        sog: Some(r64(5.0)),
    };
    let decoded = DecodedMessage::CogSogRapidUpdate(msg);
    let delta = decoded_to_delta(&decoded, &test_source(129026)).unwrap();
    let values = &delta.updates[0].values;
    assert!(
        values
            .iter()
            .any(|v| v.path == "navigation.courseOverGroundTrue")
    );
    assert!(
        values
            .iter()
            .any(|v| v.path == "navigation.speedOverGround")
    );
}

#[test]
fn pgn_convert_water_depth_with_offset() {
    let msg = WaterDepth {
        depth: Some(r64(15.0)),
        offset: Some(r64(-1.5)),
    };
    let decoded = DecodedMessage::WaterDepth(msg);
    let delta = decoded_to_delta(&decoded, &test_source(128267)).unwrap();
    let values = &delta.updates[0].values;
    assert!(
        values
            .iter()
            .any(|v| v.path == "environment.depth.belowTransducer")
    );
    assert!(
        values
            .iter()
            .any(|v| v.path == "environment.depth.belowKeel")
    );
}

#[test]
fn pgn_convert_wind_data_apparent() {
    let msg = WindData {
        wind_speed: Some(r64(8.0)),
        wind_angle: Some(r64(0.785)),
        reference: Some(WindReference::Apparent),
    };
    let decoded = DecodedMessage::WindData(msg);
    let delta = decoded_to_delta(&decoded, &test_source(130306)).unwrap();
    let values = &delta.updates[0].values;
    assert!(
        values
            .iter()
            .any(|v| v.path == "environment.wind.speedApparent")
    );
    assert!(
        values
            .iter()
            .any(|v| v.path == "environment.wind.angleApparent")
    );
}

#[test]
fn pgn_convert_ais_class_a_position_report() {
    let msg = AisClassAPositionReport {
        user_id: Some(211457160),
        latitude: Some(r64(54.3)),
        longitude: Some(r64(10.5)),
        sog: Some(r64(5.0)),
        cog: Some(r64(1.0)),
        heading: Some(r64(1.1)),
        rate_of_turn: None,
        nav_status: Some(0),
    };
    let decoded = DecodedMessage::AisClassAPositionReport(msg);
    let delta = decoded_to_delta(&decoded, &test_source(129038)).unwrap();
    assert!(
        delta
            .context
            .as_deref()
            .unwrap()
            .starts_with("vessels.urn:mrn:imo:mmsi:211457160")
    );
    let values = &delta.updates[0].values;
    assert!(values.iter().any(|v| v.path == "navigation.position"));
    assert!(
        values
            .iter()
            .any(|v| v.path == "navigation.speedOverGround")
    );
    assert!(
        values
            .iter()
            .any(|v| v.path == "navigation.courseOverGroundTrue")
    );
    assert!(values.iter().any(|v| v.path == "navigation.state"));
}

#[test]
fn pgn_convert_ais_class_b_position_report() {
    let msg = AisClassBPositionReport {
        user_id: Some(366999000),
        latitude: Some(r64(37.8)),
        longitude: Some(r64(-122.4)),
        sog: Some(r64(2.5)),
        cog: None,
        heading: None,
    };
    let decoded = DecodedMessage::AisClassBPositionReport(msg);
    let delta = decoded_to_delta(&decoded, &test_source(129039)).unwrap();
    assert!(delta.context.as_deref().unwrap().contains("366999000"));
    let values = &delta.updates[0].values;
    assert!(values.iter().any(|v| v.path == "navigation.position"));
    assert!(
        values
            .iter()
            .any(|v| v.path == "navigation.speedOverGround")
    );
}

#[test]
fn source_is_nmea2000() {
    let msg = PositionRapidUpdate {
        latitude: Some(r64(54.0)),
        longitude: Some(r64(10.0)),
    };
    let decoded = DecodedMessage::PositionRapidUpdate(msg);
    let src = N2kSource {
        label: "my-n2k",
        src: 42,
        pgn: 129025,
    };
    let delta = decoded_to_delta(&decoded, &src).unwrap();
    assert_eq!(delta.updates[0].source.type_(), "NMEA2000");
    assert_eq!(delta.updates[0].source.label, "my-n2k");
}

#[test]
fn unsupported_pgn_returns_none() {
    let decoded = DecodedMessage::Other;
    assert!(decoded_to_delta(&decoded, &test_source(59904)).is_none());
}

#[test]
fn ais_ais_class_a_position_report() {
    let msg = AisClassAPositionReport {
        user_id: Some(211457160),
        latitude: Some(r64(54.3)),
        longitude: Some(r64(10.5)),
        sog: Some(r64(5.0)),
        cog: Some(r64(1.0)),
        heading: Some(r64(1.1)),
        rate_of_turn: None,
        nav_status: Some(0),
    };
    let decoded = DecodedMessage::AisClassAPositionReport(msg);
    let delta = decoded_to_delta(&decoded, &test_source(129038)).unwrap();
    assert!(
        delta
            .context
            .as_deref()
            .unwrap()
            .starts_with("vessels.urn:mrn:imo:mmsi:211457160")
    );
    let values = &delta.updates[0].values;
    assert!(values.iter().any(|v| v.path == "navigation.position"));
    assert!(
        values
            .iter()
            .any(|v| v.path == "navigation.speedOverGround")
    );
    assert!(
        values
            .iter()
            .any(|v| v.path == "navigation.courseOverGroundTrue")
    );
    assert!(values.iter().any(|v| v.path == "navigation.state"));
}

#[test]
fn ais_ais_class_b_position_report() {
    let msg = AisClassBPositionReport {
        user_id: Some(366999000),
        latitude: Some(r64(37.8)),
        longitude: Some(r64(-122.4)),
        sog: Some(r64(2.5)),
        cog: None,
        heading: None,
    };
    let decoded = DecodedMessage::AisClassBPositionReport(msg);
    let delta = decoded_to_delta(&decoded, &test_source(129039)).unwrap();
    assert!(delta.context.as_deref().unwrap().contains("366999000"));
    let values = &delta.updates[0].values;
    assert!(values.iter().any(|v| v.path == "navigation.position"));
    assert!(
        values
            .iter()
            .any(|v| v.path == "navigation.speedOverGround")
    );
}

#[test]
fn environment_wind_data_apparent() {
    let msg = WindData {
        wind_speed: Some(r64(8.0)),
        wind_angle: Some(r64(0.785)),
        reference: Some(WindReference::Apparent),
    };
    let decoded = DecodedMessage::WindData(msg);
    let delta = decoded_to_delta(&decoded, &test_source(130306)).unwrap();
    let values = &delta.updates[0].values;
    assert!(values.iter().any(|v| v.path == "environment.wind.speedApparent"));
    assert!(values.iter().any(|v| v.path == "environment.wind.angleApparent"));
}

#[test]
fn temperature_sea() {
    let msg = Temperature {
        actual_temperature: Some(r64(293.15)),
        source: Some(TemperatureSource::SeaTemperature),
    };
    let decoded = DecodedMessage::Temperature(msg);
    let delta = decoded_to_delta(&decoded, &test_source(130312)).unwrap();
    let values = &delta.updates[0].values;
    assert_eq!(values[0].path, "environment.water.temperature");
    assert!((number(&values[0].value) - 293.15).abs() < 0.01);
}

#[test]
fn temperature_outside() {
    let msg = Temperature {
        actual_temperature: Some(r64(288.15)),
        source: Some(TemperatureSource::OutsideTemperature),
    };
    let decoded = DecodedMessage::Temperature(msg);
    let delta = decoded_to_delta(&decoded, &test_source(130312)).unwrap();
    let values = &delta.updates[0].values;
    assert_eq!(values[0].path, "environment.outside.temperature");
}

#[test]
fn navigation_vessel_heading_true() {
    let msg = VesselHeading {
        heading: Some(r64(1.5)),
        reference: Some(DirectionReference::True),
        variation: None,
    };
    let decoded = DecodedMessage::VesselHeading(msg);
    let delta = decoded_to_delta(&decoded, &test_source(127250)).unwrap();
    assert_eq!(delta.context.as_deref(), Some("vessels.self"));
    let values = &delta.updates[0].values;
    assert_eq!(values[0].path, "navigation.headingTrue");
    let hdg = number(&values[0].value);
    assert!((hdg - 1.5).abs() < 0.001);
}

#[test]
fn navigation_vessel_heading_magnetic() {
    let msg = VesselHeading {
        heading: Some(r64(2.0)),
        reference: Some(DirectionReference::Magnetic),
        variation: Some(r64(0.05)),
    };
    let decoded = DecodedMessage::VesselHeading(msg);
    let delta = decoded_to_delta(&decoded, &test_source(127250)).unwrap();
    let values = &delta.updates[0].values;
    assert_eq!(values[0].path, "navigation.headingMagnetic");
    assert!(
        values
            .iter()
            .any(|v| v.path == "navigation.magneticVariation")
    );
}

#[test]
fn navigation_position_rapid_update() {
    let msg = PositionRapidUpdate {
        latitude: Some(r64(54.123)),
        longitude: Some(r64(10.456)),
    };
    let decoded = DecodedMessage::PositionRapidUpdate(msg);
    let delta = decoded_to_delta(&decoded, &test_source(129025)).unwrap();
    let pos = &delta.updates[0].values[0];
    assert_eq!(pos.path, "navigation.position");
    let lat = number(member(&pos.value, "latitude"));
    let lon = number(member(&pos.value, "longitude"));
    assert!((lat - 54.123).abs() < 1e-5);
    assert!((lon - 10.456).abs() < 1e-5);
}

#[test]
fn navigation_cog_sog_rapid() {
    let msg = CogSogRapidUpdate {
        cog: Some(r64(1.0)),
        cog_reference: Some(DirectionReference::True),
        sog: Some(r64(5.0)),
    };
    let decoded = DecodedMessage::CogSogRapidUpdate(msg);
    let delta = decoded_to_delta(&decoded, &test_source(129026)).unwrap();
    let values = &delta.updates[0].values;
    assert!(
        values
            .iter()
            .any(|v| v.path == "navigation.courseOverGroundTrue")
    );
    assert!(
        values
            .iter()
            .any(|v| v.path == "navigation.speedOverGround")
    );
}

#[test]
fn navigation_water_depth_with_offset() {
    let msg = WaterDepth {
        depth: Some(r64(15.0)),
        offset: Some(r64(-1.5)),
    };
    let decoded = DecodedMessage::WaterDepth(msg);
    let delta = decoded_to_delta(&decoded, &test_source(128267)).unwrap();
    let values = &delta.updates[0].values;
    assert!(
        values
            .iter()
            .any(|v| v.path == "environment.depth.belowTransducer")
    );
    assert!(
        values
            .iter()
            .any(|v| v.path == "environment.depth.belowKeel")
    );
}

#[test]
fn rate_of_turn() {
    let msg = RateOfTurn {
        rate: Some(r64(0.1)),
    };
    let decoded = DecodedMessage::RateOfTurn(msg);
    let delta = decoded_to_delta(&decoded, &test_source(127251)).unwrap();
    let values = &delta.updates[0].values;
    assert_eq!(values[0].path, "navigation.rateOfTurn");
    assert!((number(&values[0].value) - 0.1).abs() < 1e-6);
}

#[test]
fn attitude_roll_pitch_yaw() {
    let msg = Attitude {
        yaw: Some(r64(1.5)),
        pitch: Some(r64(0.02)),
        roll: Some(r64(0.05)),
    };
    let decoded = DecodedMessage::Attitude(msg);
    let delta = decoded_to_delta(&decoded, &test_source(127257)).unwrap();
    let values = &delta.updates[0].values;
    assert!(values.iter().any(|v| v.path == "navigation.attitude.roll"));
    assert!(values.iter().any(|v| v.path == "navigation.attitude.pitch"));
    assert!(values.iter().any(|v| v.path == "navigation.attitude.yaw"));
}

#[test]
fn distance_log() {
    let msg = DistanceLog {
        log: Some(1_000_000),
        trip_log: Some(50_000),
    };
    let decoded = DecodedMessage::DistanceLog(msg);
    let delta = decoded_to_delta(&decoded, &test_source(128275)).unwrap();
    let values = &delta.updates[0].values;
    let log = values.iter().find(|v| v.path == "navigation.log").unwrap();
    assert!((number(&log.value) - 1_000_000.0).abs() < 1.0);
    let trip = values
        .iter()
        .find(|v| v.path == "navigation.trip.log")
        .unwrap();
    assert!((number(&trip.value) - 50_000.0).abs() < 1.0);
}

#[test]
fn time_date_iso8601() {
    // 2024-01-15 12:00:00 UTC: days = (2024-1970)*365 + leap adjustments
    // Use a known epoch: 2024-01-15 = 19737 days from 1970-01-01
    let msg = TimeDate {
        date: Some(19737),
        time: Some(43200),
    };
    let decoded = DecodedMessage::TimeDate(msg);
    let delta = decoded_to_delta(&decoded, &test_source(129033)).unwrap();
    let values = &delta.updates[0].values;
    assert_eq!(values.len(), 4);
    assert_eq!(values[0].path, "navigation.datetime");
    assert!(text_of(&values[0].value).contains("2024-01-15"));
}

#[test]
fn time_date_writes_environment_time_paths() {
    // 2024-01-15 12:00:00 UTC = 19737 days + 43200 secs = total_secs 1705320000
    let msg = TimeDate {
        date: Some(19737),
        time: Some(43200),
    };
    let decoded = DecodedMessage::TimeDate(msg);
    let delta = decoded_to_delta(&decoded, &test_source(129033)).unwrap();
    let values = &delta.updates[0].values;

    let millis = values
        .iter()
        .find(|p| p.path == "environment.time.millis")
        .unwrap();
    assert_eq!(number(&millis.value) as i64, 1705320000i64 * 1000);

    let offset = values
        .iter()
        .find(|p| p.path == "environment.time.timezoneOffset")
        .unwrap();
    assert_eq!(number(&offset.value) as i64, 0);

    let region = values
        .iter()
        .find(|p| p.path == "environment.time.timezoneRegion")
        .unwrap();
    assert_eq!(text_of(&region.value), "UTC");
}

#[test]
fn cross_track_error() {
    let msg = CrossTrackError {
        xte: Some(r64(50.0)),
    };
    let decoded = DecodedMessage::CrossTrackError(msg);
    let delta = decoded_to_delta(&decoded, &test_source(129283)).unwrap();
    let values = &delta.updates[0].values;
    assert_eq!(
        values[0].path,
        "navigation.courseGreatCircle.crossTrackError"
    );
    assert!((number(&values[0].value) - 50.0).abs() < 0.1);
}

#[test]
fn rudder_angle() {
    let msg = Rudder {
        position: Some(r64(0.1)),
    };
    let decoded = DecodedMessage::Rudder(msg);
    let delta = decoded_to_delta(&decoded, &test_source(127245)).unwrap();
    let values = &delta.updates[0].values;
    assert_eq!(values[0].path, "steering.rudderAngle");
    assert!((number(&values[0].value) - 0.1).abs() < 1e-6);
}

#[test]
fn engine_rapid_rpm_to_rad_per_s() {
    let msg = EngineParametersRapidUpdate {
        instance: Some(0),
        speed: Some(r64(3000.0)),
    };
    let decoded = DecodedMessage::EngineParametersRapidUpdate(msg);
    let delta = decoded_to_delta(&decoded, &test_source(127488)).unwrap();
    let values = &delta.updates[0].values;
    let rev = values
        .iter()
        .find(|v| v.path == "propulsion.0.revolutions")
        .unwrap();
    let expected = 3000.0 * std::f64::consts::TAU / 60.0;
    assert!((number(&rev.value) - expected).abs() < 0.01);
}

#[test]
fn engine_dynamic_temperatures() {
    let msg = EngineParametersDynamic {
        instance: Some(1),
        oil_pressure: Some(r64(300_000.0)),
        temperature: Some(r64(365.0)),
        oil_temperature: None,
        alternator_potential: Some(r64(14.2)),
    };
    let decoded = DecodedMessage::EngineParametersDynamic(msg);
    let delta = decoded_to_delta(&decoded, &test_source(127489)).unwrap();
    let values = &delta.updates[0].values;
    assert!(values.iter().any(|v| v.path == "propulsion.1.oilPressure"));
    assert!(
        values
            .iter()
            .any(|v| v.path == "propulsion.1.coolantTemperature")
    );
    assert!(
        values
            .iter()
            .any(|v| v.path == "propulsion.1.alternatorVoltage")
    );
}

#[test]
fn battery_status() {
    let msg = BatteryStatus {
        instance: Some(0),
        voltage: Some(r64(12.6)),
        current: Some(r64(-5.0)),
        temperature: Some(r64(298.15)),
    };
    let decoded = DecodedMessage::BatteryStatus(msg);
    let delta = decoded_to_delta(&decoded, &test_source(127508)).unwrap();
    let values = &delta.updates[0].values;
    assert!(
        values
            .iter()
            .any(|v| v.path == "electrical.batteries.0.voltage")
    );
    assert!(
        values
            .iter()
            .any(|v| v.path == "electrical.batteries.0.current")
    );
    assert!(
        values
            .iter()
            .any(|v| v.path == "electrical.batteries.0.temperature")
    );
    let volt = values
        .iter()
        .find(|v| v.path == "electrical.batteries.0.voltage")
        .unwrap();
    assert!((number(&volt.value) - 12.6).abs() < 0.01);
}

#[test]
fn default_transport_is_socketcan() {
    let cfg = N2kConfig::default();
    assert_eq!(cfg.transport, "socketcan");
    assert_eq!(cfg.interface, "can0");
    assert_eq!(cfg.source_label, "nmea2000");
}


#[test]
fn transports_are_chosen_by_name() {
    assert_eq!(choose_transport("socketcan"), Transport::SocketCan);
    assert_eq!(choose_transport("slcan"), Transport::Slcan);
    assert_eq!(choose_transport("actisense"), Transport::Actisense);
    assert_eq!(choose_transport("anything"), Transport::SocketCan);
}

#[test]
fn empty_messages_give_no_delta() {
    let msg = PositionRapidUpdate { latitude: Some(r64(1.0)), longitude: None };
    let decoded = DecodedMessage::PositionRapidUpdate(msg);
    assert!(decoded_to_delta(&decoded, &test_source(129025)).is_none());
}

#[test]
fn depth_below_keel_is_reduced_by_the_offset() {
    let msg = WaterDepth { depth: Some(r64(15.0)), offset: Some(r64(-1.5)) };
    let decoded = DecodedMessage::WaterDepth(msg);
    let delta = decoded_to_delta(&decoded, &test_source(128267)).unwrap();
    let keel = find(&delta.updates[0].values, "environment.depth.belowKeel").unwrap();
    assert_eq!(number(keel), 13.5);
}

#[test]
fn wind_references_have_their_own_paths() {
    for (reference, path) in [
        (WindReference::Apparent, "environment.wind.speedApparent"),
        (WindReference::TrueBoatReferenced, "environment.wind.speedTrue"),
    ] {
        let msg = WindData {
            wind_speed: Some(r64(8.0)),
            wind_angle: None,
            reference: Some(reference),
        };
        let decoded = DecodedMessage::WindData(msg);
        let delta = decoded_to_delta(&decoded, &test_source(130306)).unwrap();
        assert_eq!(delta.updates[0].values[0].path, path);
    }
}

#[test]
fn time_date_texts_are_exact() {
    let text = |date: u16, time: u32| {
        let decoded = DecodedMessage::TimeDate(TimeDate { date: Some(date), time: Some(time) });
        let delta = decoded_to_delta(&decoded, &test_source(129033)).unwrap();
        text_of(&delta.updates[0].values[0].value).to_string()
    };
    assert_eq!(text(0, 0), "1970-01-01T00:00:00.000Z");
    assert_eq!(text(11016, 86399), "2000-02-29T23:59:59.000Z");
    assert_eq!(text(19737, 43200), "2024-01-15T12:00:00.000Z");
    assert_eq!(text(47541, 3661), "2100-03-01T01:01:01.000Z");
}
