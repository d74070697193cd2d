use signalk_plugins::anchor::{check_all, AnchorWatch, Watch};
use signalk_plugins::autopilot::pd::{
    HeadingPlausibility, PlausibilityResult, RecoveryState, RudderFeedbackMonitor,
};
use signalk_plugins::autopilot::provider::TackDirection;
use signalk_plugins::autopilot::state::{AutopilotMode, AutopilotState};
use signalk_plugins::clock::{CalendarDate, ClockTime};
use signalk_plugins::contact::mmsi_context;
use signalk_plugins::derived::course::CourseOverGroundMagnetic;
use signalk_plugins::derived::Values;
use signalk_plugins::framing::checksum;
use signalk_plugins::incoming::{Incoming, IncomingUpdate, Reading};
use signalk_plugins::json::Json;
use signalk_plugins::nmea0183_send;
use signalk_plugins::nmea2000_send;
use signalk_plugins::number::Real;
use signalk_plugins::signalk::Source;
use signalk_plugins::text::decimal_padded;
use signalk_plugins::tracker::{AisTracker, TargetStatus};

fn r64(x: f64) -> Real {
    Real { bits: x.to_bits() }
}

fn float(r: Real) -> f64 {
    f64::from_bits(r.bits)
}

const NUMBERS: [f64; 9] = [
    f64::NEG_INFINITY,
    -2.5,
    -1e-310,
    -0.0,
    0.0,
    f64::MIN_POSITIVE,
    1.0,
    1e300,
    f64::INFINITY,
];

#[test]
fn order_of_numbers_is_that_of_doubles() {
    for a in NUMBERS {
        for b in NUMBERS {
            assert_eq!(r64(a).less_than(r64(b)), a < b, "{a} < {b}");
            assert_eq!(r64(a).at_most(r64(b)), a <= b, "{a} <= {b}");
            assert_eq!(r64(b).neg().less_than(r64(a).neg()), a < b);
        }
        assert!(!r64(a).less_than(r64(f64::NAN)));
        assert!(!r64(f64::NAN).at_most(r64(a)));
        assert_eq!(float(r64(a).neg().neg()).to_bits(), a.to_bits());
        assert_eq!(r64(a).neg().abs(), r64(a).abs());
    }
}

#[test]
fn one_changed_character_changes_the_checksum() {
    let body = "GPGLL,5300.97914,N,00259.98174,E";
    for at in 0..body.len() {
        let mut changed = body.as_bytes().to_vec();
        changed[at] = if changed[at] == b'7' { b'8' } else { b'7' };
        let changed = String::from_utf8(changed).unwrap();
        assert_ne!(checksum(&changed), checksum(body));
    }
    assert_eq!(checksum(body), checksum(&body[..11]) ^ checksum(&body[11..]));
}

#[test]
fn contexts_differ_and_carry_the_mmsi() {
    assert_eq!(mmsi_context(1234), "vessels.urn:mrn:imo:mmsi:000001234");
    assert_ne!(mmsi_context(1234), mmsi_context(12_340));
    assert_eq!(AisTracker::parse_mmsi(&mmsi_context(211_457_160)), Some("211457160"));
    assert_eq!(decimal_padded(42, 5), "00042");
    assert_eq!(decimal_padded(123_456, 5), "123456");
}

#[test]
fn anchor_alarms_alternate() {
    let mut watch = AnchorWatch::new();
    let distances = [10.0, 60.0, 70.0, 40.0, 50.0, 51.0].iter().map(|d| r64(*d)).collect();
    let crossings = check_all(&mut watch, &distances, r64(50.0));
    assert_eq!(
        crossings,
        vec![
            Watch::Steady,
            Watch::Left,
            Watch::Steady,
            Watch::Returned,
            Watch::Steady,
            Watch::Left,
        ]
    );
    assert!(watch.alarming);
}

#[test]
fn rudder_alarm_needs_a_run_of_mismatches() {
    let mut monitor = RudderFeedbackMonitor::new();
    let (large, small) = (Some(r64(0.5)), Some(r64(0.01)));
    let limit = r64(0.1);
    assert_eq!(monitor.update(large, limit, 3), None);
    assert_eq!(monitor.update(large, limit, 3), None);
    assert_eq!(monitor.update(small, limit, 3), None);
    assert_eq!(monitor.update(large, limit, 3), None);
    assert_eq!(monitor.update(large, limit, 3), None);
    assert_eq!(monitor.update(None, limit, 3), None);
    assert_eq!(monitor.update(large, limit, 3), Some(true));
    assert_eq!(monitor.update(large, limit, 3), None);
    assert_eq!(monitor.update(small, limit, 3), Some(false));
}

#[test]
fn plausible_heading_ends_a_run_of_glitches() {
    let mut compass = HeadingPlausibility::new(3);
    let (far, near, limit) = (r64(2.0), r64(0.01), r64(0.1));
    let prev = r64(1.0);
    assert_eq!(compass.check(prev, near, limit), PlausibilityResult::Plausible(prev));
    assert_eq!(compass.check(r64(3.0), far, limit), PlausibilityResult::Glitch(prev));
    assert_eq!(compass.check(r64(3.0), far, limit), PlausibilityResult::Glitch(prev));
    let next = r64(1.01);
    assert_eq!(compass.check(next, near, limit), PlausibilityResult::Plausible(next));
    assert_eq!(compass.check(r64(3.0), far, limit), PlausibilityResult::Glitch(next));
    assert_eq!(compass.check(r64(3.0), far, limit), PlausibilityResult::Glitch(next));
    assert_eq!(compass.check(r64(3.0), far, limit), PlausibilityResult::SensorFailure);
}

#[test]
fn recovery_lasts_its_ticks_at_most() {
    let mut recovery = RecoveryState::new();
    let (threshold, exit) = (r64(0.5), r64(0.15));
    recovery.update(r64(1.0), threshold, exit, 4);
    assert!(recovery.is_active());
    let mut ticks = 0;
    while recovery.is_active() {
        recovery.update(r64(0.3), threshold, exit, 4);
        ticks += 1;
        assert!(ticks <= 4);
    }
}

#[test]
fn recovery_needs_more_than_one_tick() {
    let (threshold, exit) = (r64(0.5), r64(0.15));
    let mut once = RecoveryState::new();
    assert!(!once.update(r64(1.0), threshold, exit, 1));
    let mut twice = RecoveryState::new();
    assert!(twice.update(r64(-1.0), threshold, exit, 2));
    assert!(!twice.update(r64(-1.0), threshold, exit, 2));
    assert!(!RecoveryState::new().update(r64(0.5), threshold, exit, 9));
    assert!(!RecoveryState::new().update(r64(1.0), r64(0.0), r64(0.0), 9));
}

#[test]
fn manoeuvres_reach_their_side_and_undo_each_other() {
    let mut state = AutopilotState::new(AutopilotMode::Wind);
    state.set_target(r64(0.7));
    assert_eq!(float(state.manoeuvre_target(TackDirection::Port)), -0.7);
    assert!(state.tack(TackDirection::Port, r64(1.4)).is_ok());
    assert_eq!(float(state.target_rad.unwrap()), -0.7);
    assert!(state.tack(TackDirection::Starboard, r64(1.4)).is_ok());
    assert_eq!(float(state.target_rad.unwrap()), 0.7);
    assert!(state.tack(TackDirection::Starboard, r64(0.0)).is_err());
    assert_eq!(float(state.target_rad.unwrap()), 0.7);
}

#[test]
fn readings_do_not_touch_the_commands() {
    let mut state = AutopilotState::new(AutopilotMode::Compass);
    state.engage();
    state.set_target(r64(1.0));
    let delta = Incoming {
        context: None,
        updates: vec![IncomingUpdate {
            source: Source::plugin("compass"),
            values: vec![
                Reading {
                    path: "navigation.headingMagnetic".to_string(),
                    value: Json::Number(r64(2.0)),
                },
                Reading {
                    path: "steering.rudderAngle".to_string(),
                    value: Json::Number(r64(0.2)),
                },
            ],
        }],
    };
    state.handle_delta(&delta, 5);
    assert!(state.enabled);
    assert_eq!(state.target_rad, Some(r64(1.0)));
    assert_eq!(state.current_sensor(), Some(r64(2.0)));
    assert_eq!(state.actual_rudder_rad, Some(r64(0.2)));
}

#[test]
fn calculators_look_at_their_inputs_only() {
    let mut values = Values::new();
    values.insert("navigation.courseOverGroundTrue", Json::Number(r64(1.5)));
    values.insert("navigation.magneticVariation", Json::Number(r64(0.1)));
    let before = CourseOverGroundMagnetic.calculate(&values);
    assert!(before.is_some());
    values.insert("navigation.speedOverGround", Json::Number(r64(3.0)));
    let after = CourseOverGroundMagnetic.calculate(&values);
    assert_eq!(format!("{before:?}"), format!("{after:?}"));
}

#[test]
fn rounds_begin_with_rmc_and_grow_with_the_values() {
    let date = CalendarDate { year: 2024, month: 2, day: 5 };
    let time = ClockTime { hour: 9, minute: 7, second: 3, nanosecond: 0 };
    let mut snap = nmea0183_send::Snapshot::empty();
    let first = nmea0183_send::generate_all_sentences(&snap, date, time);
    assert_eq!(first.len(), 1);
    assert!(matches!(first[0], nmea0183_send::Outgoing::Rmc(_)));
    snap.heading_true_rad = Some(r64(1.0));
    snap.wind_angle_apparent_rad = Some(r64(0.5));
    snap.depth_below_transducer_m = Some(r64(10.0));
    let second = nmea0183_send::generate_all_sentences(&snap, date, time);
    assert_eq!(second.len(), 4);
    assert!(matches!(second[0], nmea0183_send::Outgoing::Rmc(_)));
    assert!(matches!(second[1], nmea0183_send::Outgoing::Hdt(_)));
}

#[test]
fn sequence_identifier_counts_the_messages() {
    let mut sid: u8 = 254;
    let mut snap = nmea2000_send::Snapshot::empty();
    assert!(nmea2000_send::build_pgns(&snap, &mut sid).is_empty());
    assert_eq!(sid, 254);
    snap.heading_true_rad = Some(r64(1.0));
    snap.cog_true_rad = Some(r64(1.1));
    snap.sog_mps = Some(r64(3.0));
    snap.wind_speed_apparent_mps = Some(r64(5.0));
    snap.wind_angle_apparent_rad = Some(r64(0.4));
    let messages = nmea2000_send::build_pgns(&snap, &mut sid);
    assert_eq!(messages.len(), 3);
    assert_eq!(sid, 1);
}

#[test]
fn lost_target_is_confirmed_again_by_a_message() {
    let second: u64 = 1_000_000_000;
    let start: u64 = 10_000 * second;
    let mut tracker = AisTracker::new("self");
    let context = mmsi_context(211_457_160);
    tracker.update_target(&context, &Vec::new(), start);
    tracker.update_target(&context, &Vec::new(), start + second);
    assert_eq!(tracker.get("211457160").unwrap().status, TargetStatus::Confirmed);
    let lost = tracker.tick(start + 361 * second + second);
    assert_eq!(lost[0].new_status, TargetStatus::Lost);
    let back = tracker.update_target(&context, &Vec::new(), start + 370 * second);
    assert_eq!(back.unwrap().new_status, TargetStatus::Confirmed);
    assert_eq!(tracker.target_count(), 1);
}
