#![allow(dead_code)]
use signalk_plugins::incoming::{Incoming, IncomingUpdate, Reading};
use signalk_plugins::json::{Json, Member};
use signalk_plugins::nmea2000_send::{build_pgns, SendConfig, Snapshot};
use signalk_plugins::number::Real;
use signalk_plugins::pgn::Content;
use signalk_plugins::signalk::Source;
use std::f64::consts::FRAC_PI_2;

fn r64(x: f64) -> Real {
    Real { bits: x.to_bits() }
}

fn jnum(x: f64) -> Json {
    Json::Number(r64(x))
}

fn jtext(s: &str) -> Json {
    Json::Text(s.to_string())
}

fn jobj(members: Vec<(&str, Json)>) -> Json {
    let mut list = Vec::new();
    for (key, value) in members {
        list.push(Member { key: key.to_string(), value });
    }
    Json::Object(list)
}

fn reading(path: &str, value: Json) -> Reading {
    Reading { path: path.to_string(), value }
}

fn incoming(values: Vec<Reading>) -> Incoming {
    Incoming {
        context: Some("vessels.self".to_string()),
        updates: vec![IncomingUpdate { source: Source::plugin("test"), values }],
    }
}

#[test]
fn nmea2000_send_default_config_deserializes() {
    let config = SendConfig::default();
    assert_eq!(config.interface, "can0");
    assert_eq!(config.source_address, 100);
    assert_eq!(config.interval_ms, 1000);
}

#[test]
fn nmea2000_send_snapshot_updates_from_delta() {
    let delta = incoming(vec![
        reading("navigation.headingTrue", jnum(1.234)),
        reading("navigation.speedOverGround", jnum(5.14)),
        reading("navigation.courseOverGroundTrue", jnum(1.0)),
        reading("environment.wind.angleApparent", jnum(0.786)),
        reading("environment.wind.speedApparent", jnum(10.0)),
    ]);

    let mut snap = Snapshot::empty();
    snap.update_from_delta(&delta);

    assert_eq!(snap.heading_true_rad, Some(r64(1.234)));
    assert_eq!(snap.sog_mps, Some(r64(5.14)));
    assert_eq!(snap.cog_true_rad, Some(r64(1.0)));
    assert_eq!(snap.wind_angle_apparent_rad, Some(r64(0.786)));
    assert_eq!(snap.wind_speed_apparent_mps, Some(r64(10.0)));
}

#[test]
fn build_pgns_from_full_snapshot() {
    let snap = Snapshot {
        heading_true_rad: Some(r64(1.234)),
        magnetic_variation_rad: Some(r64(0.05)),
        cog_true_rad: Some(r64(1.0)),
        sog_mps: Some(r64(5.0)),
        wind_speed_apparent_mps: Some(r64(10.0)),
        wind_angle_apparent_rad: Some(r64(0.786)),
    };

    let mut sid = 0u8;
    let pgns = build_pgns(&snap, &mut sid);

    assert_eq!(pgns.len(), 3);
    assert_eq!(pgns[0].pgn, 127250); // Vessel Heading
    assert_eq!(pgns[1].pgn, 129026); // COG/SOG
    assert_eq!(pgns[2].pgn, 130306); // Wind Data
    assert_eq!(sid, 3); // SID incremented for each
}

#[test]
fn build_pgns_empty_snapshot_produces_nothing() {
    let snap = Snapshot::empty();
    let mut sid = 0u8;
    let pgns = build_pgns(&snap, &mut sid);
    assert!(pgns.is_empty());
}

#[test]
fn sid_wraps_around() {
    let snap = Snapshot {
        heading_true_rad: Some(r64(1.0)),
        cog_true_rad: Some(r64(1.0)),
        wind_speed_apparent_mps: Some(r64(10.0)),
        ..Snapshot::empty()
    };

    let mut sid = 254u8;
    let pgns = build_pgns(&snap, &mut sid);
    assert_eq!(pgns.len(), 3);
    assert_eq!(sid, 1); // 254 → 255 → 0 → 1
}


#[test]
fn heading_message_carries_heading_and_variation() {
    let snap = Snapshot {
        heading_true_rad: Some(r64(FRAC_PI_2)),
        magnetic_variation_rad: Some(r64(0.05)),
        ..Snapshot::empty()
    };
    let mut sid = 9u8;
    let pgns = build_pgns(&snap, &mut sid);
    assert_eq!(pgns.len(), 1);
    assert_eq!(pgns[0].priority, 2);
    match pgns[0].content {
        Content::Heading { sid, heading, reference, variation } => {
            assert_eq!((sid, reference), (9, 0));
            assert_eq!(heading, r64(FRAC_PI_2));
            assert_eq!(variation, Some(r64(0.05)));
        }
        other => panic!("{other:?}"),
    }
    assert_eq!(sid, 10);
}

#[test]
fn course_message_may_lack_the_speed() {
    let snap = Snapshot { cog_true_rad: Some(r64(1.0)), ..Snapshot::empty() };
    let mut sid = 0u8;
    match build_pgns(&snap, &mut sid)[0].content {
        Content::CogSog { cog_reference, cog, sog, .. } => {
            assert_eq!((cog_reference, cog, sog), (0, Some(r64(1.0)), None));
        }
        other => panic!("{other:?}"),
    }
}

#[test]
fn wind_message_is_apparent() {
    let snap = Snapshot {
        wind_speed_apparent_mps: Some(r64(12.0)),
        wind_angle_apparent_rad: Some(r64(0.5)),
        ..Snapshot::empty()
    };
    let mut sid = 0u8;
    match build_pgns(&snap, &mut sid)[0].content {
        Content::Wind { reference, speed, angle, .. } => {
            assert_eq!((reference, speed, angle), (2, Some(r64(12.0)), Some(r64(0.5))));
        }
        other => panic!("{other:?}"),
    }
}

#[test]
fn can_status() {
    assert_eq!(SendConfig::default().status(), "CAN can0");
}
