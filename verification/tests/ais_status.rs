#![allow(dead_code)]
use signalk_plugins::ais_status::{
    alarm_level, class_to_str, collision_delta, handle_delta, own_motion, run_cpa_tick, run_tick, status_delta,
    AisConfig, CpaLimits,
};
use signalk_plugins::cpa::Motion;
use signalk_plugins::expr::Expr;
use signalk_plugins::incoming::{Incoming, Reading};
use signalk_plugins::json::{Json, Member};
use signalk_plugins::number::Real;
use signalk_plugins::signalk::{NotificationState, PathValue, Value};
use signalk_plugins::tracker::{
    classify_mmsi, AisTracker, CpaResult, StatusTransition, TargetClass, TargetStatus,
    ThresholdOverrides, TrackedTarget, TrackerConfig,
};
use std::f64::consts::PI;

/// A monotonic clock in nanoseconds.
const START: u64 = 1_000_000_000_000;

fn secs(n: u64) -> u64 {
    n * 1_000_000_000
}

fn r64(x: f64) -> Real {
    Real { bits: x.to_bits() }
}

fn float(r: Real) -> f64 {
    f64::from_bits(r.bits)
}

/// Carries out a formula.
fn eval(e: &Expr) -> f64 {
    let half: f64 = std::f64::consts::PI;
    match e {
        Expr::Lit(r) => float(*r),
        Expr::Single(bits) => f32::from_bits(*bits) as f64,
        Expr::Int(i) => *i as f64,
        Expr::Uint(u) => *u as f64,
        Expr::Neg(a) => -eval(a),
        Expr::Abs(a) => eval(a).abs(),
        Expr::Sqrt(a) => eval(a).sqrt(),
        Expr::Sin(a) => eval(a).sin(),
        Expr::Cos(a) => eval(a).cos(),
        Expr::Asin(a) => eval(a).asin(),
        Expr::Atan(a) => eval(a).atan(),
        Expr::Exp(a) => eval(a).exp(),
        Expr::Floor(a) => eval(a).floor(),
        Expr::Round(a) => eval(a).round(),
        Expr::Signum(a) => eval(a).signum(),
        Expr::Wrap(a) => {
            let mut x = eval(a);
            while x > half {
                x -= 2.0 * half;
            }
            while x < -half {
                x += 2.0 * half;
            }
            x
        }
        Expr::ToRadians(a) => eval(a).to_radians(),
        Expr::ToDegrees(a) => eval(a).to_degrees(),
        Expr::ToSingle(a) => eval(a) as f32 as f64,
        Expr::ToWord(a) => eval(a) as u32 as f64,
        Expr::Add(a, b) => eval(a) + eval(b),
        Expr::Sub(a, b) => eval(a) - eval(b),
        Expr::Mul(a, b) => eval(a) * eval(b),
        Expr::Div(a, b) => eval(a) / eval(b),
        Expr::Rem(a, b) => eval(a) % eval(b),
        Expr::RemEuclid(a, b) => eval(a).rem_euclid(eval(b)),
        Expr::Atan2(a, b) => eval(a).atan2(eval(b)),
        Expr::Powf(a, b) => eval(a).powf(eval(b)),
        Expr::Min(a, b) => eval(a).min(eval(b)),
        Expr::Max(a, b) => eval(a).max(eval(b)),
        Expr::Clamp(a, lo, hi) => eval(a).clamp(eval(lo), eval(hi)),
        Expr::IfLess(a, b, yes, no) => {
            if eval(a) < eval(b) {
                eval(yes)
            } else {
                eval(no)
            }
        }
    }
}

fn jnum(x: f64) -> Json {
    Json::Number(r64(x))
}

fn jtext(s: &str) -> Json {
    Json::Text(s.to_string())
}

fn jobj(members: Vec<(&str, Json)>) -> Json {
    let mut list = Vec::new();
    for (key, value) in members {
        list.push(Member { key: key.to_string(), value });
    }
    Json::Object(list)
}

fn reading(path: &str, value: Json) -> Reading {
    Reading { path: path.to_string(), value }
}

fn find<'a>(values: &'a [PathValue], path: &str) -> Option<&'a Value> {
    values.iter().find(|pv| pv.path == path).map(|pv| &pv.value)
}

fn number(v: &Value) -> f64 {
    match v {
        Value::Number(e) => eval(e),
        Value::Int(i) => *i as f64,
        _ => panic!("not a number: {v:?}"),
    }
}

fn text_of(v: &Value) -> &str {
    match v {
        Value::Text(s) => s.as_str(),
        _ => panic!("not a text: {v:?}"),
    }
}

fn member<'a>(v: &'a Value, key: &str) -> &'a Value {
    match v {
        Value::Object(fields) => &fields.iter().find(|f| f.key == key).unwrap().value,
        _ => panic!("not an object: {v:?}"),
    }
}

struct Approach {
    cpa_m: f64,
    tcpa_s: f64,
}

#[allow(clippy::too_many_arguments)]
fn compute_cpa(
    own_lat: f64,
    own_lon: f64,
    own_sog: f64,
    own_cog: f64,
    tgt_lat: f64,
    tgt_lon: f64,
    tgt_sog: f64,
    tgt_cog: f64,
) -> Option<Approach> {
    let own = Motion {
        lat: r64(own_lat),
        lon: r64(own_lon),
        sog_ms: r64(own_sog),
        cog_rad: r64(own_cog),
    };
    let target = Motion {
        lat: r64(tgt_lat),
        lon: r64(tgt_lon),
        sog_ms: r64(tgt_sog),
        cog_rad: r64(tgt_cog),
    };
    let formula = signalk_plugins::cpa::compute_cpa(own, target)?;
    Some(Approach { cpa_m: eval(&formula.cpa_m), tcpa_s: eval(&formula.tcpa_s) })
}

/// Head-on collision: own vessel heading north, target heading south from 1 NM ahead.
/// Both at 5 m/s. They will meet in the middle (~500 m ahead) in ~185 s.
#[test]
fn head_on_collision() {
    // Own: 54°N 10°E, heading north (0 rad) at 5 m/s
    // Target: 54.009°N 10°E (~1 km ahead), heading south (π rad) at 5 m/s
    let result = compute_cpa(54.0, 10.0, 5.0, 0.0, 54.009, 10.0, 5.0, PI).unwrap();

    // CPA should be very small (near-zero); TCPA should be positive
    assert!(
        result.cpa_m < 50.0,
        "CPA should be near 0, got {}",
        result.cpa_m
    );
    assert!(
        result.tcpa_s > 0.0,
        "TCPA should be positive (future), got {}",
        result.tcpa_s
    );
    assert!(result.tcpa_s < 600.0, "TCPA too large: {}", result.tcpa_s);
}

/// Parallel courses: same direction, laterally separated.
/// CPA should equal the lateral separation; TCPA = infinity.
#[test]
fn parallel_courses_same_direction() {
    // Own: 54°N 10°E heading north at 5 m/s
    // Target: 54°N 10.01°E (same latitude, ~700 m east) heading north at 5 m/s
    let result = compute_cpa(54.0, 10.0, 5.0, 0.0, 54.0, 10.01, 5.0, 0.0).unwrap();

    // Same velocity -> TCPA = +infinity, CPA = current lateral distance
    assert!(
        result.tcpa_s.is_infinite(),
        "TCPA should be infinity for same velocity"
    );
    // ~700 m lateral separation at 54° lat
    assert!(
        result.cpa_m > 500.0 && result.cpa_m < 900.0,
        "CPA should be ~700 m, got {}",
        result.cpa_m
    );
}

/// Diverging: past CPA. Both heading east, target is ahead and faster.
/// The target already passed own vessel — closest approach was in the past.
#[test]
fn diverging_past_cpa() {
    // Own: 54°N 10°E heading east (π/2) at 5 m/s
    // Target: 54°N 10.004°E (≈260m ahead) also heading east at 8 m/s
    // V_rel = (3, 0) m/s — target accelerating away; TCPA < 0.
    let result = compute_cpa(54.0, 10.0, 5.0, PI / 2.0, 54.0, 10.004, 8.0, PI / 2.0).unwrap();

    // TCPA < 0 means closest approach is already in the past
    assert!(
        result.tcpa_s < 0.0,
        "TCPA should be negative (past), got {}",
        result.tcpa_s
    );
}

/// Stationary target: CPA = current distance, TCPA = +infinity.
#[test]
fn stationary_target() {
    // Own: 54°N 10°E heading north at 5 m/s
    // Target: 54.005°N 10°E (~555 m ahead), stationary
    let result = compute_cpa(54.0, 10.0, 5.0, 0.0, 54.005, 10.0, 0.0, 0.0).unwrap();

    // Target is stationary but own vessel is moving -> should have positive TCPA
    // (own vessel approaching stationary target)
    assert!(
        result.tcpa_s > 0.0,
        "TCPA should be positive, got {}",
        result.tcpa_s
    );
    // CPA should be near 0 (will hit stationary target)
    assert!(
        result.cpa_m < 50.0,
        "CPA should be near 0, got {}",
        result.cpa_m
    );
}

/// Non-finite inputs return None.
#[test]
fn non_finite_input_returns_none() {
    assert!(compute_cpa(f64::NAN, 10.0, 5.0, 0.0, 54.0, 10.0, 5.0, 0.0).is_none());
    assert!(compute_cpa(54.0, 10.0, f64::INFINITY, 0.0, 54.0, 10.0, 5.0, 0.0).is_none());
    assert!(compute_cpa(54.0, 10.0, 5.0, f64::NAN, 54.0, 10.0, 5.0, 0.0).is_none());
    assert!(compute_cpa(54.0, 10.0, 5.0, 0.0, f64::NAN, 10.0, 5.0, 0.0).is_none());
}

/// Both stationary: CPA = current distance, TCPA = +infinity.
#[test]
fn cpa_both_stationary() {
    // 1 NM separation (due north)
    let result = compute_cpa(54.0, 10.0, 0.0, 0.0, 54.009, 10.0, 0.0, 0.0).unwrap();

    assert!(
        result.tcpa_s.is_infinite(),
        "TCPA should be infinity when both stationary"
    );
    // ~1 km distance
    assert!(
        result.cpa_m > 500.0 && result.cpa_m < 1500.0,
        "CPA should be ~1 km, got {}",
        result.cpa_m
    );
}

/// Crossing: own heading east, target heading west from 1 NM ahead.
/// They should be on a collision course (very small CPA) near the midpoint.
#[test]
fn crossing_courses() {
    // Own: 54°N 10°E heading east (π/2) at 5 m/s
    // Target: 54°N 10.018°E (≈1 NM east) heading west (3π/2) at 5 m/s
    let result =
        compute_cpa(54.0, 10.0, 5.0, PI / 2.0, 54.0, 10.018, 5.0, 3.0 * PI / 2.0).unwrap();

    assert!(result.tcpa_s > 0.0, "TCPA should be positive");
    assert!(
        result.cpa_m < 100.0,
        "Should be near-collision, CPA={}",
        result.cpa_m
    );
}

/// Own vessel anchored (SOG=0), target approaching. CPA should be near-zero,
/// TCPA positive.
#[test]
fn own_vessel_stationary() {
    // Own: 54°N 10°E, anchored (SOG=0)
    // Target: 54.009°N 10°E (~1km north), heading south at 5 m/s
    let result = compute_cpa(54.0, 10.0, 0.0, 0.0, 54.009, 10.0, 5.0, PI).unwrap();
    assert!(
        result.tcpa_s > 0.0,
        "TCPA should be positive: target approaching"
    );
    assert!(
        result.cpa_m < 50.0,
        "CPA near-zero: target heading directly for us"
    );
}

/// CPA distance must always be >= 0 for any valid inputs.
#[test]
fn cpa_result_is_always_non_negative() {
    let cases = [
        (
            54.0_f64, 10.0_f64, 5.0_f64, 0.0_f64, 54.009_f64, 10.0_f64, 5.0_f64, PI,
        ),
        (54.0, 10.0, 5.0, 0.0, 54.0, 10.01, 5.0, 0.0),
        (54.0, 10.0, 5.0, PI / 2.0, 54.0, 10.004, 8.0, PI / 2.0),
        (54.0, 10.0, 0.0, 0.0, 54.009, 10.0, 5.0, PI), // own anchored
    ];
    for (own_lat, own_lon, own_sog, own_cog, tgt_lat, tgt_lon, tgt_sog, tgt_cog) in cases {
        let result = compute_cpa(
            own_lat, own_lon, own_sog, own_cog, tgt_lat, tgt_lon, tgt_sog, tgt_cog,
        )
        .unwrap();
        assert!(
            result.cpa_m >= 0.0,
            "CPA must be >= 0, got {} (tcpa={})",
            result.cpa_m,
            result.tcpa_s
        );
    }
}

/// COG = 0 (north): velocity vector is (vx=0, vy=SOG).
/// Verify via a head-on scenario: own north, target south from ahead -> collision.
#[test]
fn due_north_heading_produces_correct_vector() {
    // Own heading north (COG=0), target approaching from north heading south
    let result = compute_cpa(54.0, 10.0, 5.0, 0.0, 54.009, 10.0, 5.0, PI).unwrap();
    // Head-on -> very small CPA, positive TCPA
    assert!(result.cpa_m < 50.0);
    assert!(result.tcpa_s > 0.0);
}

/// COG = π/2 (east): velocity vector is (vx=SOG, vy=0).
/// Two vessels heading east in parallel (same heading, same SOG, laterally offset)
/// -> same velocity vector → TCPA = infinity.
#[test]
fn due_east_heading_produces_correct_vector() {
    // Own: 54°N 10°E heading east at 5 m/s
    // Target: 54.001°N 10°E (~111m north), also heading east at 5 m/s
    let result = compute_cpa(54.0, 10.0, 5.0, PI / 2.0, 54.001, 10.0, 5.0, PI / 2.0).unwrap();
    assert!(
        result.tcpa_s.is_infinite(),
        "Parallel same-velocity vessels: TCPA = infinity, got {}",
        result.tcpa_s
    );
    // CPA = lateral separation ~111m
    assert!(result.cpa_m > 50.0 && result.cpa_m < 200.0);
}

/// Very large distance (100 km): computation should not panic or produce NaN.
#[test]
fn large_distance_does_not_panic() {
    // Own: equator; target: ~100km north
    let result = compute_cpa(0.0, 0.0, 5.0, 0.0, 0.9, 0.0, 5.0, PI);
    assert!(result.is_some(), "Should return Some for large distance");
    let r = result.unwrap();
    assert!(r.cpa_m.is_finite(), "CPA should be finite");
    assert!(r.cpa_m >= 0.0);
}

/// Same position, same velocity: relative position is zero, v_sq < threshold -> TCPA = infinity, CPA = 0.
#[test]
fn same_position_and_velocity() {
    let result = compute_cpa(54.0, 10.0, 5.0, 0.0, 54.0, 10.0, 5.0, 0.0).unwrap();
    assert!(result.tcpa_s.is_infinite());
    assert!(result.cpa_m < 1.0, "CPA should be ~0 when at same position");
}

#[test]
fn classify_normal_vessel() {
    assert_eq!(classify_mmsi("211457160"), TargetClass::Vessel);
    assert_eq!(classify_mmsi("366999000"), TargetClass::Vessel);
}

#[test]
fn classify_aton() {
    assert_eq!(classify_mmsi("970012345"), TargetClass::Aton);
    assert_eq!(classify_mmsi("979999999"), TargetClass::Aton);
}

#[test]
fn classify_base_station() {
    assert_eq!(classify_mmsi("002111111"), TargetClass::Base);
    assert_eq!(classify_mmsi("003669999"), TargetClass::Base);
}

#[test]
fn classify_sar() {
    assert_eq!(classify_mmsi("111123456"), TargetClass::Sar);
}

#[test]
fn new_target_is_unconfirmed() {
    let t = TrackedTarget::new("211457160", "vessels.urn:mrn:imo:mmsi:211457160",
        START,
    );
    assert_eq!(t.status, TargetStatus::Unconfirmed);
    assert_eq!(t.class, TargetClass::Vessel);
    assert_eq!(t.message_count, 0);
}

#[test]
fn vessel_confirms_after_two_messages() {
    let now = START;
    let mut t = TrackedTarget::new("211457160", "vessels.urn:mrn:imo:mmsi:211457160",
        now,
    );
    assert_eq!(t.status, TargetStatus::Unconfirmed);

    // First message — still unconfirmed (vessel needs 2)
    let transition = t.record_message(now);
    assert!(transition.is_none());

    // Second message within confirm window -> confirmed
    let transition = t.record_message(now + secs(10));
    assert!(transition.is_some());
    let tr = transition.unwrap();
    assert_eq!(tr.old_status, TargetStatus::Unconfirmed);
    assert_eq!(tr.new_status, TargetStatus::Confirmed);
    assert_eq!(t.status, TargetStatus::Confirmed);
}

#[test]
fn aton_confirms_on_first_message() {
    // ATONs need only 1 message to confirm
    let now = START;
    let mut t = TrackedTarget::new("970012345", "vessels.urn:mrn:imo:mmsi:970012345",
        now,
    );
    // First record_message should confirm (confirm_count=1 for ATONs)
    let transition = t.record_message(now);
    assert!(transition.is_some());
    assert_eq!(t.status, TargetStatus::Confirmed);
}

#[test]
fn confirmed_to_lost_on_timeout() {
    let now = START;
    let mut t = TrackedTarget::new("211457160", "vessels.urn:mrn:imo:mmsi:211457160",
        now,
    );
    t.record_message(now); // first message
    t.record_message(now + secs(5)); // second -> confirms

    assert_eq!(t.status, TargetStatus::Confirmed);

    // Simulate tick after lost_after
    let elapsed = now + secs(5) + secs(361);
    let since_last = elapsed - t.last_seen;
    assert!(since_last > secs(t.thresholds.lost_after));

    // Manually check what tick would do
    let old = t.status;
    t.status = TargetStatus::Lost;
    assert_eq!(old, TargetStatus::Confirmed);
    assert_eq!(t.status, TargetStatus::Lost);
}

#[test]
fn lost_to_confirmed_on_new_message() {
    let now = START;
    let mut t = TrackedTarget::new("211457160", "vessels.urn:mrn:imo:mmsi:211457160",
        now,
    );
    t.record_message(now); // first
    t.record_message(now + secs(5)); // second -> confirms
    t.status = TargetStatus::Lost; // simulate going lost

    let transition = t.record_message(now + secs(500));
    assert!(transition.is_some());
    let tr = transition.unwrap();
    assert_eq!(tr.old_status, TargetStatus::Lost);
    assert_eq!(tr.new_status, TargetStatus::Confirmed);
    assert_eq!(t.status, TargetStatus::Confirmed);
}

#[test]
fn tracker_ignores_self_vessel() {
    let mut tracker = AisTracker::new("urn:mrn:signalk:uuid:test-uuid");
    let result = tracker.update_target(
        "vessels.urn:mrn:signalk:uuid:test-uuid",
        &vec![reading("navigation.speedOverGround", jnum(5.0))],
        START,
    );
    assert!(result.is_none());
    assert_eq!(tracker.target_count(), 0);
}

#[test]
fn tracker_ignores_vessels_self() {
    let mut tracker = AisTracker::new("urn:mrn:signalk:uuid:test-uuid");
    let result = tracker.update_target(
        "vessels.self",
        &vec![reading("navigation.speedOverGround", jnum(5.0))],
        START,
    );
    assert!(result.is_none());
    assert_eq!(tracker.target_count(), 0);
}

#[test]
fn tracker_creates_and_confirms_target() {
    let now = START;
    let mut tracker = AisTracker::new("urn:mrn:signalk:uuid:test-uuid");

    // First message — creates unconfirmed target
    let result = tracker.update_target(
        "vessels.urn:mrn:imo:mmsi:211457160",
        &vec![reading("navigation.speedOverGround", jnum(5.0))],
        now,
    );
    assert!(result.is_none()); // still unconfirmed after 1st msg (vessel needs 2)
    assert_eq!(tracker.target_count(), 1);

    // Second message — confirms
    let result = tracker.update_target(
        "vessels.urn:mrn:imo:mmsi:211457160",
        &vec![reading("navigation.speedOverGround", jnum(5.2))],
        now + secs(10),
    );
    assert!(result.is_some());
    assert_eq!(result.unwrap().new_status, TargetStatus::Confirmed);
}

#[test]
fn tracker_updates_position() {
    let now = START;
    let mut tracker = AisTracker::new("urn:mrn:signalk:uuid:test-uuid");

    tracker.update_target(
        "vessels.urn:mrn:imo:mmsi:211457160",
        &vec![reading("navigation.position", jobj(vec![("latitude", jnum(54.123)), ("longitude", jnum(10.456))]))],
        now,
    );

    let target = tracker.get("211457160").unwrap();
    assert_eq!(target.position, Some((r64(54.123), r64(10.456))));
}

#[test]
fn tracker_tick_marks_lost() {
    let now = START;
    let mut tracker = AisTracker::new("urn:mrn:signalk:uuid:test-uuid");

    // Create and confirm a target
    tracker.update_target(
        "vessels.urn:mrn:imo:mmsi:211457160",
        &vec![reading("navigation.speedOverGround", jnum(5.0))],
        now,
    );
    tracker.update_target(
        "vessels.urn:mrn:imo:mmsi:211457160",
        &vec![reading("navigation.speedOverGround", jnum(5.2))],
        now + secs(5),
    );

    // Tick after lost_after (360s) — target should be marked lost
    let transitions = tracker.tick(now + secs(370));
    assert_eq!(transitions.len(), 1);
    assert_eq!(transitions[0].new_status, TargetStatus::Lost);
    assert_eq!(tracker.get("211457160").unwrap().status, TargetStatus::Lost);
}

#[test]
fn tracker_tick_removes_stale_unconfirmed() {
    let now = START;
    let mut tracker = AisTracker::new("urn:mrn:signalk:uuid:test-uuid");

    // Create an unconfirmed target (single message, vessel needs 2)
    tracker.update_target(
        "vessels.urn:mrn:imo:mmsi:211457160",
        &vec![reading("navigation.speedOverGround", jnum(5.0))],
        now,
    );
    assert_eq!(tracker.target_count(), 1);

    // Tick after confirm_window (180s) — target should be removed
    tracker.tick(now + secs(200));
    assert_eq!(tracker.target_count(), 0);
}

#[test]
fn tracker_tick_removes_lost_after_timeout() {
    let now = START;
    let mut tracker = AisTracker::new("urn:mrn:signalk:uuid:test-uuid");

    // Create and confirm
    tracker.update_target("vessels.urn:mrn:imo:mmsi:211457160", &vec![], now);
    tracker.update_target(
        "vessels.urn:mrn:imo:mmsi:211457160",
            &vec![],
        now + secs(5),
    );

    // Mark as lost
    tracker.tick(now + secs(370));
    assert_eq!(tracker.get("211457160").unwrap().status, TargetStatus::Lost);

    // Tick after remove_after (540s after lost_after) — target should be gone
    tracker.tick(now + secs(370 + 540 + 1));
    assert_eq!(tracker.target_count(), 0);
}

#[test]
fn tracker_multiple_targets() {
    let now = START;
    let mut tracker = AisTracker::new("urn:mrn:signalk:uuid:test-uuid");

    tracker.update_target("vessels.urn:mrn:imo:mmsi:211457160", &vec![], now);
    tracker.update_target("vessels.urn:mrn:imo:mmsi:366999000", &vec![], now);
    tracker.update_target("vessels.urn:mrn:imo:mmsi:970012345", &vec![], now);

    assert_eq!(tracker.target_count(), 3);
    assert_eq!(tracker.get("211457160").unwrap().class, TargetClass::Vessel);
    assert_eq!(tracker.get("970012345").unwrap().class, TargetClass::Aton);
}

#[test]
fn parse_mmsi_valid() {
    assert_eq!(
        AisTracker::parse_mmsi("vessels.urn:mrn:imo:mmsi:211457160"),
        Some("211457160")
    );
}

#[test]
fn parse_mmsi_invalid() {
    assert_eq!(AisTracker::parse_mmsi("vessels.self"), None);
    assert_eq!(
        AisTracker::parse_mmsi("vessels.urn:mrn:signalk:uuid:abc"),
        None
    );
}

#[test]
fn status_str_values() {
    assert_eq!(TargetStatus::Unconfirmed.as_str(), "unconfirmed");
    assert_eq!(TargetStatus::Confirmed.as_str(), "confirmed");
    assert_eq!(TargetStatus::Lost.as_str(), "lost");
}

#[test]
fn target_updates_name_and_callsign() {
    let now = START;
    let mut t = TrackedTarget::new("211457160", "vessels.urn:mrn:imo:mmsi:211457160",
        now,
    );

    t.update_from_values(&vec![
        reading("name", jtext("PACIFIC EXPLORER")),
        reading("communication.callsignVhf", jtext("DJKL")),
    ]);

    assert_eq!(t.name.as_deref(), Some("PACIFIC EXPLORER"));
    assert_eq!(t.callsign.as_deref(), Some("DJKL"));
}


fn seen(tracker: &mut AisTracker, mmsi: &str, at: u64) -> Option<StatusTransition> {
    tracker.update_target(&format!("vessels.urn:mrn:imo:mmsi:{mmsi}"), &vec![], at)
}

#[test]
fn own_uri_is_never_tracked() {
    let mut tracker = AisTracker::new("urn:mrn:imo:mmsi:211457160");
    assert!(seen(&mut tracker, "211457160", START).is_none());
    assert_eq!(tracker.target_count(), 0);
    assert!(seen(&mut tracker, "211457161", START).is_none());
    assert_eq!(tracker.target_count(), 1);
}

#[test]
fn counts_by_status_add_up() {
    let mut tracker = AisTracker::new("self");
    seen(&mut tracker, "970000001", START);
    seen(&mut tracker, "211000001", START);
    seen(&mut tracker, "111000001", START);
    tracker.tick(START + secs(31));
    // The aircraft is lost after thirty seconds, the aid to navigation is confirmed.
    assert_eq!(tracker.count_by_status(), (1, 1, 1));
    assert_eq!(tracker.target_count(), 3);
}

#[test]
fn messages_outside_the_window_do_not_confirm() {
    let mut t = TrackedTarget::new("211457160", "vessels.urn:mrn:imo:mmsi:211457160", START);
    assert!(t.record_message(START).is_none());
    assert!(t.record_message(START + secs(181)).is_none());
    assert_eq!(t.status, TargetStatus::Unconfirmed);
    assert_eq!(t.message_count, 2);
    let tr = t.record_message(START + secs(182)).unwrap();
    assert_eq!(tr.mmsi, "211457160");
    assert_eq!(tr.context, "vessels.urn:mrn:imo:mmsi:211457160");
}

#[test]
fn second_tick_at_the_same_time_is_quiet_here() {
    let mut tracker = AisTracker::new("self");
    seen(&mut tracker, "970000001", START);
    assert_eq!(tracker.tick(START + secs(901)).len(), 1);
    assert!(tracker.tick(START + secs(901)).is_empty());
}

#[test]
fn thresholds_can_be_overridden() {
    let mut config = TrackerConfig::none();
    config.vessel = Some(ThresholdOverrides {
        confirm_count: Some(1),
        confirm_window_secs: None,
        lost_after_secs: Some(20),
        remove_after_secs: None,
    });
    let mut tracker = AisTracker::with_config("self", config);
    assert!(seen(&mut tracker, "211457160", START).is_some());
    assert_eq!(tracker.tick(START + secs(21))[0].new_status, TargetStatus::Lost);
}

#[test]
fn snapshots_are_taken_of_confirmed_targets_with_a_position() {
    let mut tracker = AisTracker::new("self");
    seen(&mut tracker, "970000001", START);
    assert!(tracker.targets_for_cpa().is_empty());
    tracker.update_target(
        "vessels.urn:mrn:imo:mmsi:970000001",
        &vec![
            reading(
                "navigation.position",
                jobj(vec![("latitude", jnum(54.0)), ("longitude", jnum(10.0))]),
            ),
            reading("navigation.speedOverGround", jnum(3.0)),
            reading("navigation.courseOverGroundTrue", jnum(1.0)),
            reading("navigation.headingTrue", jnum(1.5)),
        ],
        START + secs(1),
    );
    let list = tracker.targets_for_cpa();
    assert_eq!(list.len(), 1);
    assert_eq!(list[0].mmsi, "970000001");
    assert_eq!(tracker.get("970000001").unwrap().heading, Some(r64(1.5)));
}

#[test]
fn status_delta_names_the_class_on_confirmation() {
    let mut tracker = AisTracker::new("self");
    let tr = seen(&mut tracker, "970000001", START).unwrap();
    let delta = status_delta(&tr);
    assert_eq!(delta.context.as_deref(), Some("vessels.urn:mrn:imo:mmsi:970000001"));
    assert_eq!(delta.updates[0].source.label, "ais-status");
    let values = &delta.updates[0].values;
    assert_eq!(values.len(), 2);
    assert_eq!(text_of(find(values, "sensors.ais.status").unwrap()), "confirmed");
    assert_eq!(text_of(find(values, "sensors.ais.class").unwrap()), "aton");
    let lost = &tracker.tick(START + secs(901))[0];
    let values = &status_delta(lost).updates[0].values;
    assert_eq!(values.len(), 1);
    assert_eq!(text_of(find(values, "sensors.ais.status").unwrap()), "lost");
}

#[test]
fn class_names() {
    assert_eq!(class_to_str(TargetClass::Vessel), "A");
    assert_eq!(class_to_str(TargetClass::Aton), "aton");
    assert_eq!(class_to_str(TargetClass::Base), "base");
    assert_eq!(class_to_str(TargetClass::Sar), "sar");
}

#[test]
fn deltas_without_mmsi_are_ignored() {
    let mut tracker = AisTracker::new("self");
    for context in [None, Some("vessels.self".to_string()), Some("aircraft.x".to_string())] {
        let delta = Incoming { context, updates: vec![] };
        assert!(handle_delta(&mut tracker, delta, START).is_none());
    }
    assert_eq!(tracker.target_count(), 0);
    let delta = Incoming {
        context: Some("vessels.urn:mrn:imo:mmsi:970000001".to_string()),
        updates: vec![],
    };
    assert!(handle_delta(&mut tracker, delta, START).is_some());
}

#[test]
fn status_line_counts_targets() {
    let mut tracker = AisTracker::new("self");
    seen(&mut tracker, "970000001", START);
    seen(&mut tracker, "211000001", START);
    let (line, deltas) = run_tick(&mut tracker, START + secs(1));
    assert_eq!(line, "Tracking 2 targets (1 confirmed, 0 lost, 1 unconfirmed)");
    assert!(deltas.is_empty());
    let (line, deltas) = run_tick(&mut tracker, START + secs(1000));
    assert_eq!(line, "Tracking 1 targets (0 confirmed, 1 lost, 0 unconfirmed)");
    assert_eq!(deltas.len(), 1);
}

#[test]
fn approach_levels() {
    let limits = CpaLimits {
        warn_m: Some(r64(1852.0)),
        alarm_m: Some(r64(926.0)),
        tcpa_max_s: r64(3600.0),
    };
    let level = |cpa: f64, tcpa: f64| {
        alarm_level(CpaResult { cpa_m: r64(cpa), tcpa_s: r64(tcpa) }, limits)
    };
    assert_eq!(level(900.0, 60.0), Some(NotificationState::Alarm));
    assert_eq!(level(926.0, 60.0), Some(NotificationState::Warn));
    assert_eq!(level(1852.0, 60.0), None);
    assert_eq!(level(900.0, 0.0), None);
    assert_eq!(level(900.0, -1.0), None);
    assert_eq!(level(900.0, 3600.0), None);
    assert_eq!(level(900.0, f64::INFINITY), None);
    assert_eq!(level(f64::NAN, 60.0), None);
    let off = CpaLimits { warn_m: None, alarm_m: None, tcpa_max_s: r64(3600.0) };
    assert_eq!(alarm_level(CpaResult { cpa_m: r64(1.0), tcpa_s: r64(1.0) }, off), None);
}

#[test]
fn limits_are_nautical_miles() {
    let config = AisConfig {
        cpa_warn_distance_nm: Some(r64(2.0)),
        cpa_alarm_distance_nm: None,
        ..AisConfig::default()
    };
    assert!(config.watches_approaches());
    assert!(!AisConfig::default().watches_approaches());
    let (warn, alarm, time) = config.limits();
    assert_eq!(eval(&warn.unwrap()), 3704.0);
    assert!(alarm.is_none());
    assert_eq!(eval(&time), 3600.0);
    assert_eq!(AisConfig::default().tick_interval_secs, 30);
    assert_eq!(config.tracker().target_count(), 0);
}

#[test]
fn own_motion_needs_a_position() {
    let position = Some(jobj(vec![("latitude", jnum(54.0)), ("longitude", jnum(10.0))]));
    let m = own_motion(&position, &Some(jnum(5.0)), &None).unwrap();
    assert_eq!((m.lat, m.lon), (r64(54.0), r64(10.0)));
    assert_eq!((m.sog_ms, m.cog_rad), (r64(5.0), r64(0.0)));
    assert!(own_motion(&None, &None, &None).is_none());
    assert!(own_motion(&Some(jobj(vec![("latitude", jnum(54.0))])), &None, &None).is_none());
}

#[test]
fn collision_is_notified_once_and_taken_back() {
    let mut tracker = AisTracker::new("self");
    let position =
        || jobj(vec![("latitude", jnum(54.0)), ("longitude", jnum(10.0))]);
    tracker.update_target(
        "vessels.urn:mrn:imo:mmsi:970000001",
        &vec![reading("navigation.position", position())],
        START,
    );
    let limits = CpaLimits {
        warn_m: Some(r64(1852.0)),
        alarm_m: None,
        tcpa_max_s: r64(3600.0),
    };
    let near = vec![Some(CpaResult { cpa_m: r64(100.0), tcpa_s: r64(60.0) })];
    let far = vec![Some(CpaResult { cpa_m: r64(5000.0), tcpa_s: r64(60.0) })];
    let mut round = |results: &Vec<Option<CpaResult>>| {
        let snaps = tracker.targets_for_cpa();
        let deltas = run_cpa_tick(&mut tracker, &snaps, results, limits);
        deltas.iter().map(|d| d.updates[0].values[0].path.clone()).collect::<Vec<String>>()
    };
    let approach = "navigation.closestApproach.distance".to_string();
    let collision = "notifications.collision.mmsi-970000001".to_string();
    assert_eq!(round(&near), vec![approach.clone(), collision.clone()]);
    assert_eq!(round(&near), vec![approach.clone()]);
    assert_eq!(round(&far), vec![approach.clone(), collision]);
    assert_eq!(round(&far), vec![approach]);
    assert!(round(&vec![None]).is_empty());
}

#[test]
fn collision_notifications() {
    let delta = collision_delta("211457160", Some(NotificationState::Alarm));
    let values = &delta.updates[0].values;
    let value = &values[0].value;
    assert_eq!(values[0].path, "notifications.collision.mmsi-211457160");
    assert_eq!(text_of(member(value, "state")), "alarm");
    assert_eq!(text_of(member(value, "message")), "Collision risk: MMSI 211457160");
    let cleared = collision_delta("211457160", None);
    assert_eq!(text_of(member(&cleared.updates[0].values[0].value, "state")), "normal");
}

#[test]
fn warning_that_becomes_an_alarm_is_notified() {
    let mut tracker = AisTracker::new("self");
    let position = jobj(vec![("latitude", jnum(54.0)), ("longitude", jnum(10.0))]);
    tracker.update_target(
        "vessels.urn:mrn:imo:mmsi:970000001",
        &vec![reading("navigation.position", position)],
        START,
    );
    let limits = CpaLimits {
        warn_m: Some(r64(1852.0)),
        alarm_m: Some(r64(500.0)),
        tcpa_max_s: r64(3600.0),
    };
    let mut round = |cpa_m: f64| {
        let snaps = tracker.targets_for_cpa();
        let results = vec![Some(CpaResult { cpa_m: r64(cpa_m), tcpa_s: r64(60.0) })];
        let deltas = run_cpa_tick(&mut tracker, &snaps, &results, limits);
        deltas
            .iter()
            .skip(1)
            .map(|d| text_of(member(&d.updates[0].values[0].value, "state")).to_string())
            .collect::<Vec<String>>()
    };
    assert_eq!(round(1000.0), vec!["warn"]);
    assert!(round(900.0).is_empty());
    assert_eq!(round(400.0), vec!["alarm"]);
    assert!(round(300.0).is_empty());
    assert_eq!(round(600.0), vec!["warn"]);
    assert_eq!(round(2000.0), vec!["normal"]);
    assert!(round(2000.0).is_empty());
}
