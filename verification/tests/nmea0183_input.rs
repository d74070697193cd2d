#![allow(dead_code)]
use signalk_plugins::contact::{mmsi_context, state_name, AisContact};
use signalk_plugins::expr::Expr;
use signalk_plugins::nmea0183::ais_decode::AisDecoder;
use signalk_plugins::nmea0183::ais_report::{
    from_position_report, from_static_data_report, nav_status_to_code, Dimensions, Direction,
    MessagePart, NavigationStatus, PositionReport, RateOfTurn, StaticDataReport, Whereabouts,
};
use signalk_plugins::nmea0183::dsc::{
    distress_nature_label, distress_notification_path, try_decode_dsc, DscCall, DscPosition,
};
use signalk_plugins::nmea0183::input::handle_line;
use signalk_plugins::nmea0183::parse::{parse, Parsed};
use signalk_plugins::nmea0183::{sentence_of, sentence_to_delta, talker, Sentence};
use signalk_plugins::number::{canonical_single, Real, NAN_BITS, NAN_SINGLE};
use signalk_plugins::sentences::depth::DbsData;
use signalk_plugins::sentences::heading::{HdgData, HdtData};
use signalk_plugins::signalk::{
    notification, Delta, NotificationMethod, NotificationState, PathValue, Source, SourceKind,
    Value,
};
use signalk_plugins::units::{DEG_TO_RAD, KNOTS_TO_MS};
use signalk_plugins::xdr::{find_mapping, from_xdr, name_matches, XdrData, XdrMeasurement};

const DEG: f64 = std::f64::consts::PI / 180.0;

fn r64(x: f64) -> Real {
    Real { bits: x.to_bits() }
}

fn float(r: Real) -> f64 {
    f64::from_bits(r.bits)
}

/// Carries out a formula.
fn eval(e: &Expr) -> f64 {
    let half: f64 = std::f64::consts::PI;
    match e {
        Expr::Lit(r) => float(*r),
        Expr::Single(bits) => f32::from_bits(*bits) as f64,
        Expr::Int(i) => *i as f64,
        Expr::Uint(u) => *u as f64,
        Expr::Neg(a) => -eval(a),
        Expr::Abs(a) => eval(a).abs(),
        Expr::Sqrt(a) => eval(a).sqrt(),
        Expr::Sin(a) => eval(a).sin(),
        Expr::Cos(a) => eval(a).cos(),
        Expr::Asin(a) => eval(a).asin(),
        Expr::Atan(a) => eval(a).atan(),
        Expr::Exp(a) => eval(a).exp(),
        Expr::Floor(a) => eval(a).floor(),
        Expr::Round(a) => eval(a).round(),
        Expr::Signum(a) => eval(a).signum(),
        Expr::Wrap(a) => {
            let mut x = eval(a);
            while x > half {
                x -= 2.0 * half;
            }
            while x < -half {
                x += 2.0 * half;
            }
            x
        }
        Expr::ToRadians(a) => eval(a).to_radians(),
        Expr::ToDegrees(a) => eval(a).to_degrees(),
        Expr::ToSingle(a) => eval(a) as f32 as f64,
        Expr::ToWord(a) => eval(a) as u32 as f64,
        Expr::Add(a, b) => eval(a) + eval(b),
        Expr::Sub(a, b) => eval(a) - eval(b),
        Expr::Mul(a, b) => eval(a) * eval(b),
        Expr::Div(a, b) => eval(a) / eval(b),
        Expr::Rem(a, b) => eval(a) % eval(b),
        Expr::RemEuclid(a, b) => eval(a).rem_euclid(eval(b)),
        Expr::Atan2(a, b) => eval(a).atan2(eval(b)),
        Expr::Powf(a, b) => eval(a).powf(eval(b)),
        Expr::Min(a, b) => eval(a).min(eval(b)),
        Expr::Max(a, b) => eval(a).max(eval(b)),
        Expr::Clamp(a, lo, hi) => eval(a).clamp(eval(lo), eval(hi)),
        Expr::IfLess(a, b, yes, no) => {
            if eval(a) < eval(b) {
                eval(yes)
            } else {
                eval(no)
            }
        }
    }
}

fn find<'a>(values: &'a [PathValue], path: &str) -> Option<&'a Value> {
    values.iter().find(|pv| pv.path == path).map(|pv| &pv.value)
}

fn number(v: &Value) -> f64 {
    match v {
        Value::Number(e) => eval(e),
        Value::Int(i) => *i as f64,
        _ => panic!("not a number: {v:?}"),
    }
}

fn text_of(v: &Value) -> &str {
    match v {
        Value::Text(s) => s.as_str(),
        _ => panic!("not a text: {v:?}"),
    }
}

fn member<'a>(v: &'a Value, key: &str) -> &'a Value {
    match v {
        Value::Object(fields) => &fields.iter().find(|f| f.key == key).unwrap().value,
        _ => panic!("not an object: {v:?}"),
    }
}

fn opt_member<'a>(v: &'a Value, key: &str) -> Option<&'a Value> {
    match v {
        Value::Object(fields) => fields.iter().find(|f| f.key == key).map(|f| &f.value),
        _ => None,
    }
}

fn talker_of(delta: &Delta) -> &str {
    match &delta.updates[0].source.kind {
        SourceKind::Nmea0183 { talker } => talker.as_str(),
        other => panic!("not a talker: {other:?}"),
    }
}

// Real VDM sentences from common test vectors.

// Type 1: Class A position report
const VDM_TYPE1: &str = "!AIVDM,1,1,,B,13u@Dt002s000000000000000000,0*42";

// Type 5: Static and voyage data (2 fragments)
const VDM_TYPE5_FRAG1: &str =
    "!AIVDM,2,1,3,B,55?MbV02>H97ac@63F220l4r>0Hth00000015>P4640Ht02R@,0*42";
const VDM_TYPE5_FRAG2: &str = "!AIVDM,2,2,3,B,0000000000,2*20";

fn make_measurement(ttype: char, value: f64, _units: char, name: &str) -> XdrMeasurement {
    XdrMeasurement {
        transducer_type: Some(ttype),
        value: Some(r64(value)),
        name: name.to_string(),
    }
}

#[test]
fn type1_class_a_position() {
    let mut decoder = AisDecoder::new("test");
    let delta = decoder.try_decode(VDM_TYPE1);
    // May or may not decode depending on checksum; test the decoder doesn't panic
    if let Some(delta) = delta {
        assert!(
            delta
                .context
                .as_deref()
                .unwrap()
                .starts_with("vessels.urn:mrn:imo:mmsi:")
        );
    }
}

#[test]
fn non_ais_sentence_returns_none() {
    let mut decoder = AisDecoder::new("test");
    assert!(
        decoder
            .try_decode(
                "$GPRMC,225446.33,A,4916.45,N,12311.12,W,000.5,054.7,191194,020.3,E,A*2B"
            )
            .is_none()
    );
}

#[test]
fn incomplete_fragment_returns_none() {
    let mut decoder = AisDecoder::new("test");
    // First fragment of a multi-fragment message should return None
    let result = decoder.try_decode(VDM_TYPE5_FRAG1);
    assert!(result.is_none());
}

#[test]
fn multi_fragment_reassembly() {
    let mut decoder = AisDecoder::new("test");
    // First fragment -> None (incomplete)
    assert!(decoder.try_decode(VDM_TYPE5_FRAG1).is_none());
    // Second fragment -> Some (complete Type 5 message)
    let delta = decoder.try_decode(VDM_TYPE5_FRAG2);
    if let Some(delta) = delta {
        assert!(
            delta
                .context
                .as_deref()
                .unwrap()
                .starts_with("vessels.urn:mrn:imo:mmsi:")
        );
        // Type 5 should have name, callsign etc.
        let values = &delta.updates[0].values;
        assert!(
            values
                .iter()
                .any(|v| v.path == "name" || v.path == "communication.callsignVhf")
        );
    }
}

#[test]
fn source_is_nmea0183_ai() {
    let mut decoder = AisDecoder::new("my-ais");
    if let Some(delta) = decoder.try_decode(VDM_TYPE1) {
        assert_eq!(delta.updates[0].source.type_(), "NMEA0183");
        assert_eq!(delta.updates[0].source.label, "my-ais");
        assert_eq!(talker_of(&delta), "AI");
    }
}

#[test]
fn nav_status_mapping() {
    assert_eq!(
        nav_status_to_code(&NavigationStatus::UnderWayUsingEngine),
        0
    );
    assert_eq!(nav_status_to_code(&NavigationStatus::AtAnchor), 1);
    assert_eq!(nav_status_to_code(&NavigationStatus::Moored), 5);
    assert_eq!(nav_status_to_code(&NavigationStatus::EngagedInFishing), 7);
    assert_eq!(nav_status_to_code(&NavigationStatus::UnderWaySailing), 8);
    assert_eq!(nav_status_to_code(&NavigationStatus::AisSartIsActive), 14);
}

#[test]
fn empty_sentence_returns_none() {
    let mut decoder = AisDecoder::new("test");
    assert!(decoder.try_decode("").is_none());
}

#[test]
fn garbage_vdm_returns_none() {
    let mut decoder = AisDecoder::new("test");
    assert!(decoder.try_decode("!AIVDM,garbage").is_none());
}

#[test]
fn non_dsc_returns_none() {
    assert!(
        try_decode_dsc(
            "$GPRMC,225446.33,A,4916.45,N,12311.12,W,000.5,054.7,191194,020.3,E,A*2B",
            Some(&distress_call(Some(0))),
            "test",
        )
        .is_none()
    );
}

#[test]
fn empty_returns_none() {
    assert!(try_decode_dsc("", Some(&distress_call(Some(0))), "test").is_none());
}

#[test]
fn garbage_dsc_returns_none() {
    assert!(try_decode_dsc("$GPDSC,garbage", None, "test").is_none());
}

#[test]
fn distress_paths() {
    assert_eq!(distress_notification_path(Some(0)), "notifications.fire");
    assert_eq!(
        distress_notification_path(Some(1)),
        "notifications.flooding"
    );
    assert_eq!(
        distress_notification_path(Some(2)),
        "notifications.collision"
    );
    assert_eq!(
        distress_notification_path(Some(3)),
        "notifications.grounding"
    );
    assert_eq!(distress_notification_path(Some(4)), "notifications.listing");
    assert_eq!(distress_notification_path(Some(5)), "notifications.sinking");
    assert_eq!(distress_notification_path(Some(6)), "notifications.adrift");
    assert_eq!(distress_notification_path(Some(8)), "notifications.abandon");
    assert_eq!(distress_notification_path(Some(9)), "notifications.piracy");
    assert_eq!(distress_notification_path(Some(10)), "notifications.mob");
    assert_eq!(distress_notification_path(None), "notifications.distress");
    assert_eq!(
        distress_notification_path(Some(99)),
        "notifications.distress"
    );
}

#[test]
fn distress_labels() {
    assert_eq!(distress_nature_label(Some(0)), "Fire/Explosion");
    assert_eq!(distress_nature_label(Some(5)), "Sinking");
    assert_eq!(distress_nature_label(Some(10)), "Man overboard");
    assert_eq!(distress_nature_label(Some(12)), "EPIRB emission");
    assert_eq!(distress_nature_label(None), "Undesignated distress");
}

#[test]
fn mmsi_context_format() {
    let context = mmsi_context(211457160);
    assert_eq!(context, "vessels.urn:mrn:imo:mmsi:211457160");
}

#[test]
fn mmsi_context_format_short() {
    let context = mmsi_context(1234);
    assert_eq!(context, "vessels.urn:mrn:imo:mmsi:000001234");
}

#[test]
fn sentence_to_delta_rmc() {
    let raw = "$GPRMC,225446.33,A,4916.45,N,12311.12,W,000.5,054.7,191194,020.3,E,A*2B";
    let delta = sentence_to_delta(raw, None, "gps");
    assert!(delta.is_some());
    let delta = delta.unwrap();
    let update = &delta.updates[0];
    assert!(
        update
            .values
            .iter()
            .any(|v| v.path == "navigation.position")
    );
    assert!(
        update
            .values
            .iter()
            .any(|v| v.path == "navigation.speedOverGround")
    );
}

#[test]
fn sentence_to_delta_source_label() {
    let raw = "$GPRMC,225446.33,A,4916.45,N,12311.12,W,000.5,054.7,191194,020.3,E,A*2B";
    let delta = sentence_to_delta(raw, None, "my-gps").unwrap();
    assert_eq!(delta.updates[0].source.label, "my-gps");
}

#[test]
fn sentence_to_delta_talker_extracted() {
    let raw = "$IIRMC,225446.33,A,4916.45,N,12311.12,W,000.5,054.7,191194,020.3,E,A*3C";
    if let Some(d) = sentence_to_delta(raw, None, "mux") {
        assert_eq!(talker_of(&d), "II");
    }
}

#[test]
fn sentence_to_delta_unsupported() {
    // GSV (Satellites in View) is not in our dispatch table
    let raw = "$GPGSV,3,1,11,03,03,111,00,04,15,270,00,06,01,010,00,13,06,292,00*74";
    assert!(sentence_to_delta(raw, None, "gps").is_none());
}

#[test]
fn sentence_to_delta_invalid() {
    assert!(sentence_to_delta("not a sentence", None, "gps").is_none());
}

#[test]
fn barometric_pressure() {
    let xdr = XdrData {
        measurements: [make_measurement('P', 1.013, 'B', "BARO")].into_iter().collect(),
    };
    let values = from_xdr(&xdr);
    assert_eq!(values.len(), 1);
    assert_eq!(values[0].path, "environment.outside.pressure");
    assert!((number(&values[0].value) - 101_300.0).abs() < 1.0);
}

#[test]
fn water_temperature() {
    let xdr = XdrData {
        measurements: [make_measurement('C', 18.5, 'C', "WTHI")].into_iter().collect(),
    };
    let values = from_xdr(&xdr);
    assert_eq!(values[0].path, "environment.water.temperature");
    assert!((number(&values[0].value) - 291.65).abs() < 1e-6);
}

#[test]
fn air_temperature() {
    let xdr = XdrData {
        measurements: [make_measurement('C', 22.0, 'C', "TempAir")].into_iter().collect(),
    };
    let values = from_xdr(&xdr);
    assert_eq!(values[0].path, "environment.outside.temperature");
    assert!((number(&values[0].value) - 295.15).abs() < 1e-6);
}

#[test]
fn pitch_and_roll_combined() {
    let xdr = XdrData {
        measurements: [
            make_measurement('A', 5.2, 'D', "PTCH"),
            make_measurement('A', -1.3, 'D', "ROLL"),
        ]
        .into_iter()
        .collect(),
    };
    let values = from_xdr(&xdr);
    assert_eq!(values.len(), 1);
    assert_eq!(values[0].path, "navigation.attitude");
    let pitch = number(member(&values[0].value, "pitch"));
    assert!((pitch - 5.2 * DEG).abs() < 1e-8);
    let roll = number(member(&values[0].value, "roll"));
    assert!((roll - (-1.3) * DEG).abs() < 1e-8);
}

#[test]
fn pitch_only() {
    let xdr = XdrData {
        measurements: [make_measurement('A', 3.0, 'D', "PITCH")].into_iter().collect(),
    };
    let values = from_xdr(&xdr);
    assert_eq!(values.len(), 1);
    assert_eq!(values[0].path, "navigation.attitude");
    assert!(opt_member(&values[0].value, "pitch").is_some());
    assert!(opt_member(&values[0].value, "roll").is_none());
}

#[test]
fn humidity() {
    let xdr = XdrData {
        measurements: [make_measurement('H', 65.0, 'P', "Humidity")].into_iter().collect(),
    };
    let values = from_xdr(&xdr);
    assert_eq!(values[0].path, "environment.outside.humidity");
    assert!((number(&values[0].value) - 0.65).abs() < 1e-6);
}

#[test]
fn multiple_measurements() {
    let xdr = XdrData {
        measurements: [
            make_measurement('P', 1.013, 'B', "BARO"),
            make_measurement('C', 22.0, 'C', "TempAir"),
            make_measurement('H', 55.0, 'P', "Humidity"),
        ]
        .into_iter()
        .collect(),
    };
    let values = from_xdr(&xdr);
    assert_eq!(values.len(), 3);
    assert!(values.iter().any(|v| v.path == "environment.outside.pressure"));
    assert!(values.iter().any(|v| v.path == "environment.outside.temperature"));
    assert!(values.iter().any(|v| v.path == "environment.outside.humidity"));
}

#[test]
fn unknown_transducer_ignored() {
    let xdr = XdrData {
        measurements: [make_measurement('Z', 42.0, 'X', "UNKNOWN")]
            .into_iter()
            .collect(),
    };
    let values = from_xdr(&xdr);
    assert!(values.is_empty());
}

#[test]
fn wildcard_name_matching() {
    assert!(name_matches("BARO*", "BARO"));
    assert!(name_matches("BARO*", "BAROMETER"));
    assert!(!name_matches("BARO*", "BAR"));
    assert!(name_matches("WTHI", "WTHI"));
    assert!(!name_matches("WTHI", "WTHIX"));
}

#[test]
fn battery_voltage() {
    let xdr = XdrData {
        measurements: [make_measurement('U', 12.6, 'V', "BATT1")]
            .into_iter()
            .collect(),
    };
    let values = from_xdr(&xdr);
    assert_eq!(values[0].path, "electrical.batteries.main.voltage");
    assert!((number(&values[0].value) - 12.6).abs() < 1e-6);
}


#[test]
fn knots_to_ms_conversion() {
    // Verify the constant is correct: 1 knot = 0.514444 m/s
    assert!((f64::from_bits(KNOTS_TO_MS) - 0.514_444).abs() < 1e-6);
}

#[test]
fn deg_to_rad_conversion() {
    assert!((f64::from_bits(DEG_TO_RAD) * 180.0 - std::f64::consts::PI).abs() < 1e-10);
}

#[test]
fn from_position_report_fills_contact() {
    let pos = PositionReport {
        at: Whereabouts {
            mmsi: 211457160,
            speed_over_ground: Some(10.0_f32.to_bits()), // 10 knots
            longitude: Some(10.5_f32.to_bits()),
            latitude: Some(54.3_f32.to_bits()),
            course_over_ground: Some(90.0_f32.to_bits()),
            true_heading: Some(92),
        },
        navigation_status: Some(NavigationStatus::UnderWayUsingEngine),
        rate_of_turn: None,
    };

    let contact = from_position_report(&pos);
    assert_eq!(contact.mmsi, 211457160);
    let (lat, lon) = contact.position.unwrap();
    assert!((eval(&lat) - 54.3).abs() < 1e-5);
    assert!((eval(&lon) - 10.5).abs() < 1e-5);

    let sog = eval(&contact.sog_ms.unwrap());
    assert!((sog - 10.0 * f64::from_bits(KNOTS_TO_MS)).abs() < 1e-6);

    let cog = eval(&contact.cog_rad.unwrap());
    assert!((cog - 90.0 * DEG).abs() < 1e-6);

    let hdg = eval(&contact.heading_rad.unwrap());
    assert!((hdg - 92.0 * DEG).abs() < 1e-6);

    assert_eq!(contact.nav_status, Some(0));
}

#[test]
fn rate_of_turn_has_the_sign_of_its_side() {
    let mut pos = PositionReport {
        at: Whereabouts {
            mmsi: 1,
            speed_over_ground: None,
            longitude: None,
            latitude: None,
            course_over_ground: None,
            true_heading: None,
        },
        navigation_status: None,
        rate_of_turn: Some(RateOfTurn {
            rate: Some(60.0_f32.to_bits()),
            direction: Some(Direction::Port),
        }),
    };
    let port = eval(&from_position_report(&pos).rot_rads.unwrap());
    assert!((port + DEG).abs() < 1e-9, "{port}");
    pos.rate_of_turn = Some(RateOfTurn {
        rate: Some(60.0_f32.to_bits()),
        direction: Some(Direction::Starboard),
    });
    let starboard = eval(&from_position_report(&pos).rot_rads.unwrap());
    assert!((starboard - DEG).abs() < 1e-9, "{starboard}");
    pos.rate_of_turn = Some(RateOfTurn { rate: None, direction: Some(Direction::Port) });
    assert!(from_position_report(&pos).rot_rads.is_none());
    assert!(from_position_report(&pos).position.is_none());
}

#[test]
fn static_data_gives_sizes() {
    let sdr = StaticDataReport {
        mmsi: 7,
        message_part: MessagePart::PartB {
            ship_type: Some(36),
            callsign: "DJKL".to_string(),
            dimensions: Dimensions { to_bow: 10, to_stern: 5, to_port: 2, to_starboard: 3 },
        },
    };
    let contact = from_static_data_report(&sdr);
    assert_eq!(contact.callsign.as_deref(), Some("DJKL"));
    assert_eq!(contact.ship_type, Some(36));
    assert_eq!(eval(&contact.length.unwrap()), 15.0);
    assert_eq!(eval(&contact.beam.unwrap()), 5.0);
    let none = from_static_data_report(&StaticDataReport {
        mmsi: 7,
        message_part: MessagePart::Unknown,
    });
    assert!(none.name.is_none() && none.callsign.is_none());
}

#[test]
fn contact_delta_paths() {
    let mut contact = AisContact::of(211457160);
    contact.name = Some("PACIFIC EXPLORER".to_string());
    contact.callsign = Some("DJKL".to_string());
    contact.imo = Some(9074729);
    contact.nav_status = Some(1);
    let delta = contact.to_delta(Source::nmea0183("my-ais", "AI"));
    assert_eq!(delta.context.as_deref(), Some("vessels.urn:mrn:imo:mmsi:211457160"));
    let values = &delta.updates[0].values;
    assert_eq!(values.len(), 4);
    assert_eq!(text_of(find(values, "name").unwrap()), "PACIFIC EXPLORER");
    assert_eq!(text_of(find(values, "communication.callsignVhf").unwrap()), "DJKL");
    assert_eq!(text_of(find(values, "registrations.imo").unwrap()), "IMO 9074729");
    assert_eq!(text_of(find(values, "navigation.state").unwrap()), "anchored");
}

#[test]
fn nav_status_names() {
    assert_eq!(state_name(0), Some("motoring"));
    assert_eq!(state_name(5), Some("moored"));
    assert_eq!(state_name(8), Some("sailing"));
    assert_eq!(state_name(15), None);
}

/// A class A position report: MMSI 371798000, 12.3 knots, course 224 deg.
const POSITION: &str = "!AIVDM,1,1,,A,15RTgt0PAso;90TKcjM8h6g208CQ,0*4A";

#[test]
fn ais_position_is_decoded() {
    let mut decoder = AisDecoder::new("my-ais");
    let delta = decoder.try_decode(POSITION).unwrap();
    assert_eq!(delta.context.as_deref(), Some("vessels.urn:mrn:imo:mmsi:371798000"));
    assert_eq!(delta.updates[0].source.type_(), "NMEA0183");
    assert_eq!(delta.updates[0].source.label, "my-ais");
    assert_eq!(talker_of(&delta), "AI");
    let values = &delta.updates[0].values;
    let sog = number(find(values, "navigation.speedOverGround").unwrap());
    assert!((sog - 12.3 * 0.514_444).abs() < 1e-5, "{sog}");
    let cog = number(find(values, "navigation.courseOverGroundTrue").unwrap());
    assert!((cog - 224.0 * DEG).abs() < 1e-5, "{cog}");
    let position = find(values, "navigation.position").unwrap();
    assert!((number(member(position, "latitude")) - 48.381_63).abs() < 1e-4);
    assert!((number(member(position, "longitude")) + 123.395_38).abs() < 1e-4);
}

#[test]
fn ais_sentence_with_wrong_checksum_is_dropped() {
    let mut decoder = AisDecoder::new("my-ais");
    assert!(decoder.try_decode("!AIVDM,1,1,,A,15RTgt0PAso;90TKcjM8h6g208CQ,0*4B").is_none());
    assert!(decoder.try_decode(POSITION).is_some());
}

/// A static report in two parts: MMSI 351759000, EVER DIADEM.
const STATIC_1: &str =
    "!AIVDM,2,1,1,A,55?MbV02;H;s<HtKR20EHE:0@T4@Dn2222222216L961O5Gf0NSQEp6ClRp8,0*1C";
const STATIC_2: &str = "!AIVDM,2,2,1,A,88888888880,2*25";

#[test]
fn ais_static_report_in_two_parts() {
    let mut decoder = AisDecoder::new("my-ais");
    assert!(decoder.try_decode(STATIC_1).is_none());
    let delta = decoder.try_decode(STATIC_2).unwrap();
    assert_eq!(delta.context.as_deref(), Some("vessels.urn:mrn:imo:mmsi:351759000"));
    let values = &delta.updates[0].values;
    assert_eq!(text_of(find(values, "name").unwrap()), "EVER DIADEM");
    assert_eq!(text_of(find(values, "communication.callsignVhf").unwrap()), "3FOF8");
}

fn distress_call(nature: Option<u8>) -> DscCall {
    DscCall {
        sender_mmsi: Some(211457160),
        position: Some(DscPosition {
            latitude: r64(54.5),
            longitude: r64(10.25),
            latitude_text: "54.5000".to_string(),
            longitude_text: "10.2500".to_string(),
        }),
        category: Some(12),
        first_telecommand: nature,
    }
}

#[test]
fn distress_call_gives_two_deltas() {
    let deltas =
        try_decode_dsc("$CVDSC,12,x", Some(&distress_call(Some(10))), "radio").unwrap();
    assert_eq!(deltas.len(), 2);
    for delta in &deltas {
        assert_eq!(delta.context.as_deref(), Some("vessels.urn:mrn:imo:mmsi:211457160"));
        assert_eq!(talker_of(delta), "DS");
    }
    let position = &deltas[0].updates[0].values[0];
    assert_eq!(position.path, "navigation.position");
    assert_eq!(number(member(&position.value, "latitude")), 54.5);
    let notification = &deltas[1].updates[0].values[0];
    assert_eq!(notification.path, "notifications.mob");
    assert_eq!(text_of(member(&notification.value, "state")), "emergency");
    assert_eq!(
        text_of(member(&notification.value, "message")),
        "DSC Distress: Man overboard from MMSI 211457160 at 54.5000,10.2500"
    );
}

#[test]
fn routine_call_gives_a_position() {
    let call = DscCall { category: Some(0), ..distress_call(None) };
    let deltas = try_decode_dsc("$CVDSC,00,x", Some(&call), "radio").unwrap();
    assert_eq!(deltas.len(), 1);
    assert_eq!(deltas[0].updates[0].values.len(), 1);
    let anonymous = DscCall { sender_mmsi: None, ..distress_call(None) };
    assert!(try_decode_dsc("$CVDSC,00,x", Some(&anonymous), "radio").is_none());
}

#[test]
fn notification_has_required_fields() {
    let value = notification(
        NotificationState::Emergency,
        &vec![NotificationMethod::Visual, NotificationMethod::Sound],
        "DSC Distress: Fire/Explosion from MMSI 211457160",
    );
    assert_eq!(text_of(member(&value, "state")), "emergency");
    match member(&value, "method") {
        Value::List(methods) => {
            assert_eq!(text_of(&methods[0]), "visual");
            assert_eq!(text_of(&methods[1]), "sound");
        }
        other => panic!("{other:?}"),
    }
    assert!(text_of(member(&value, "message")).contains("Fire"));
}

#[test]
fn lines_are_trimmed_and_told_apart() {
    let mut decoder = AisDecoder::new("mux");
    assert!(handle_line(&mut decoder, "  \r\n", None, None, "mux").is_empty());
    let rmc = "$GPRMC,225446.33,A,4916.45,N,12311.12,W,000.5,054.7,191194,020.3,E,A*2B";
    let own = handle_line(&mut decoder, &format!(" {rmc}\r\n"), None, None, "mux");
    assert_eq!(own.len(), 1);
    assert_eq!(own[0].context.as_deref(), Some("vessels.self"));
    let other = handle_line(&mut decoder, &format!("{POSITION}\r\n"), None, None, "mux");
    assert_eq!(other.len(), 1);
    assert_eq!(other[0].context.as_deref(), Some("vessels.urn:mrn:imo:mmsi:371798000"));
    let call = distress_call(Some(0));
    assert_eq!(handle_line(&mut decoder, "$CVDSC,12,x", Some(&call), None, "mux").len(), 2);
    assert!(handle_line(&mut decoder, "nonsense", None, None, "mux").is_empty());
}

#[test]
fn talkers() {
    assert_eq!(talker("$GPRMC,"), "GP");
    assert_eq!(talker("$G"), "UN");
    assert_eq!(talker("!AIVDM"), "UN");
    assert_eq!(talker(""), "UN");
}

#[test]
fn rmc_values_are_converted() {
    let raw = "$GPRMC,225446.33,A,4916.45,N,12311.12,W,000.5,054.7,191194,020.3,E,A*2B";
    let delta = sentence_to_delta(raw, None, "gps").unwrap();
    let values = &delta.updates[0].values;
    let sog = number(find(values, "navigation.speedOverGround").unwrap());
    assert!((sog - 0.5 * 0.514_444).abs() < 1e-9);
    let cog = number(find(values, "navigation.courseOverGroundTrue").unwrap());
    assert!((cog - 54.7_f32 as f64 * DEG).abs() < 1e-9);
    let position = find(values, "navigation.position").unwrap();
    assert!((number(member(position, "latitude")) - 49.274_166).abs() < 1e-5);
    assert!((number(member(position, "longitude")) + 123.185_333).abs() < 1e-5);
}

#[test]
fn xdr_table_prefers_the_first_rule() {
    let m = find_mapping('P', "BAROMETER").unwrap();
    assert_eq!(m.name_pattern, "BARO*");
    assert!(find_mapping('C', "BARO").is_none());
}

#[test]
fn further_sentences_are_read_where_the_parser_reads_nothing() {
    let mut decoder = AisDecoder::new("mux");
    let hdg = Sentence::Hdg(HdgData {
        heading: Some(90.0f32.to_bits()),
        deviation: None,
        variation: None,
    });
    let line = "$HCHDG,90.0,,,,*74\r\n";
    assert!(handle_line(&mut decoder, line, None, None, "mux").is_empty());
    let deltas = handle_line(&mut decoder, line, None, Some(&hdg), "mux");
    assert_eq!(deltas.len(), 1);
    assert_eq!(deltas[0].updates[0].values[0].path, "navigation.headingMagnetic");
    let rmc = "$GPRMC,225446.33,A,4916.45,N,12311.12,W,000.5,054.7,191194,020.3,E,A*2B";
    let own = handle_line(&mut decoder, rmc, None, Some(&hdg), "mux");
    let values = &own[0].updates[0].values;
    assert!(values.iter().any(|v| v.path == "navigation.position"));
    assert!(values.iter().all(|v| v.path != "navigation.headingMagnetic"));
}

#[test]
fn depth_below_surface_is_read_from_the_text() {
    let delta = sentence_to_delta("$SDDBS,45.0,f,13.7,M,7.5,F*07", None, "sounder").unwrap();
    let values = &delta.updates[0].values;
    assert_eq!(values.len(), 1);
    let depth = number(find(values, "environment.depth.belowSurface").unwrap());
    assert_eq!(depth, 13.7_f32 as f64);
    assert_eq!(talker_of(&delta), "SD");
    // A wrong checksum, and a sentence without any depth.
    assert!(sentence_to_delta("$SDDBS,45.0,f,13.7,M,7.5,F*08", None, "sounder").is_none());
    assert!(sentence_to_delta("$SDDBS,,f,,M,,F*2F", None, "sounder").is_none());
}

#[test]
fn the_parser_comes_before_what_was_read_otherwise() {
    let hdg = Sentence::Hdg(HdgData {
        heading: Some(90.0f32.to_bits()),
        deviation: None,
        variation: None,
    });
    let parsed = sentence_to_delta("$SDDBS,45.0,f,13.7,M,7.5,F*07", Some(&hdg), "mux").unwrap();
    assert!(find(&parsed.updates[0].values, "environment.depth.belowSurface").is_some());
    let read = sentence_to_delta("$HCHDG,90.0,,,,*7B", Some(&hdg), "mux").unwrap();
    assert!(find(&read.updates[0].values, "navigation.headingMagnetic").is_some());
}

#[test]
fn what_is_not_a_number_has_one_pattern() {
    match parse("$SDDPT,nan,0.5*1D") {
        Some(Parsed::Dpt(d)) => {
            assert_eq!(d.water_depth, Some(Real { bits: NAN_BITS }));
            assert_eq!(d.offset, Some(r64(0.5)));
        }
        p => panic!("{p:?}"),
    }
    let raw = "$GPRMC,225446.33,A,4916.45,N,12311.12,W,NaN,054.7,191194,020.3,E,A*61";
    match parse(raw) {
        Some(Parsed::Rmc(d)) => {
            assert_eq!(d.speed_over_ground, Some(NAN_SINGLE));
            assert_eq!(d.true_course, Some(54.7f32.to_bits()));
        }
        p => panic!("{p:?}"),
    }
    assert_eq!(r64(-f64::NAN).canonical(), Real { bits: NAN_BITS });
    assert_eq!(r64(f64::NEG_INFINITY).canonical(), r64(f64::NEG_INFINITY));
    assert_eq!(r64(-0.0).canonical(), r64(-0.0));
    assert_eq!(canonical_single(Some((-f32::NAN).to_bits())), Some(NAN_SINGLE));
    assert_eq!(
        canonical_single(Some(f32::NEG_INFINITY.to_bits())),
        Some(f32::NEG_INFINITY.to_bits())
    );
    assert_eq!(canonical_single(None), None);
}

#[test]
fn parsed_sentences_become_sentences() {
    let depths = DbsData {
        water_depth_feet: None,
        water_depth_meters: Some(2.0f32.to_bits()),
        water_depth_fathoms: None,
    };
    match sentence_of(Parsed::Dbs, Some(depths)) {
        Some(Sentence::Dbs(d)) => assert_eq!(d, depths),
        s => panic!("{s:?}"),
    }
    assert!(sentence_of(Parsed::Dbs, None).is_none());
    let heading = HdtData { heading: Some(1.0f32.to_bits()) };
    match sentence_of(Parsed::Hdt(heading), Some(depths)) {
        Some(Sentence::Hdt(d)) => assert_eq!(d, heading),
        s => panic!("{s:?}"),
    }
}
