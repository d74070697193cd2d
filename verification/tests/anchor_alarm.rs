#![allow(dead_code)]
use signalk_plugins::anchor::{
    check_all, default_radius, emit_notification, positions, status, AnchorConfig, AnchorPosition,
    AnchorWatch, Watch,
};
use signalk_plugins::expr::Expr;
use signalk_plugins::incoming::{Incoming, IncomingUpdate, Reading};
use signalk_plugins::json::{Json, Member};
use signalk_plugins::number::Real;
use signalk_plugins::signalk::{PathValue, Source, Value};

fn r64(x: f64) -> Real {
    Real { bits: x.to_bits() }
}

fn float(r: Real) -> f64 {
    f64::from_bits(r.bits)
}

/// Carries out a formula.
fn eval(e: &Expr) -> f64 {
    let half: f64 = std::f64::consts::PI;
    match e {
        Expr::Lit(r) => float(*r),
        Expr::Single(bits) => f32::from_bits(*bits) as f64,
        Expr::Int(i) => *i as f64,
        Expr::Uint(u) => *u as f64,
        Expr::Neg(a) => -eval(a),
        Expr::Abs(a) => eval(a).abs(),
        Expr::Sqrt(a) => eval(a).sqrt(),
        Expr::Sin(a) => eval(a).sin(),
        Expr::Cos(a) => eval(a).cos(),
        Expr::Asin(a) => eval(a).asin(),
        Expr::Atan(a) => eval(a).atan(),
        Expr::Exp(a) => eval(a).exp(),
        Expr::Floor(a) => eval(a).floor(),
        Expr::Round(a) => eval(a).round(),
        Expr::Signum(a) => eval(a).signum(),
        Expr::Wrap(a) => {
            let mut x = eval(a);
            while x > half {
                x -= 2.0 * half;
            }
            while x < -half {
                x += 2.0 * half;
            }
            x
        }
        Expr::ToRadians(a) => eval(a).to_radians(),
        Expr::ToDegrees(a) => eval(a).to_degrees(),
        Expr::ToSingle(a) => eval(a) as f32 as f64,
        Expr::ToWord(a) => eval(a) as u32 as f64,
        Expr::Add(a, b) => eval(a) + eval(b),
        Expr::Sub(a, b) => eval(a) - eval(b),
        Expr::Mul(a, b) => eval(a) * eval(b),
        Expr::Div(a, b) => eval(a) / eval(b),
        Expr::Rem(a, b) => eval(a) % eval(b),
        Expr::RemEuclid(a, b) => eval(a).rem_euclid(eval(b)),
        Expr::Atan2(a, b) => eval(a).atan2(eval(b)),
        Expr::Powf(a, b) => eval(a).powf(eval(b)),
        Expr::Min(a, b) => eval(a).min(eval(b)),
        Expr::Max(a, b) => eval(a).max(eval(b)),
        Expr::Clamp(a, lo, hi) => eval(a).clamp(eval(lo), eval(hi)),
        Expr::IfLess(a, b, yes, no) => {
            if eval(a) < eval(b) {
                eval(yes)
            } else {
                eval(no)
            }
        }
    }
}

fn jnum(x: f64) -> Json {
    Json::Number(r64(x))
}

fn jtext(s: &str) -> Json {
    Json::Text(s.to_string())
}

fn jobj(members: Vec<(&str, Json)>) -> Json {
    let mut list = Vec::new();
    for (key, value) in members {
        list.push(Member { key: key.to_string(), value });
    }
    Json::Object(list)
}

fn reading(path: &str, value: Json) -> Reading {
    Reading { path: path.to_string(), value }
}

fn find<'a>(values: &'a [PathValue], path: &str) -> Option<&'a Value> {
    values.iter().find(|pv| pv.path == path).map(|pv| &pv.value)
}

fn number(v: &Value) -> f64 {
    match v {
        Value::Number(e) => eval(e),
        Value::Int(i) => *i as f64,
        _ => panic!("not a number: {v:?}"),
    }
}

fn text_of(v: &Value) -> &str {
    match v {
        Value::Text(s) => s.as_str(),
        _ => panic!("not a text: {v:?}"),
    }
}

fn member<'a>(v: &'a Value, key: &str) -> &'a Value {
    match v {
        Value::Object(fields) => &fields.iter().find(|f| f.key == key).unwrap().value,
        _ => panic!("not an object: {v:?}"),
    }
}

fn incoming(values: Vec<Reading>) -> Incoming {
    Incoming {
        context: Some("vessels.self".to_string()),
        updates: vec![IncomingUpdate { source: Source::plugin("test"), values }],
    }
}

fn haversine_meters(lat1: f64, lon1: f64, lat2: f64, lon2: f64) -> f64 {
    let config = AnchorConfig {
        position: AnchorPosition { latitude: r64(lat1), longitude: r64(lon1) },
        radius: default_radius(),
    };
    eval(&config.distance(r64(lat2), r64(lon2)))
}

#[test]
fn haversine_zero_distance() {
    let d = haversine_meters(49.2744, -123.1888, 49.2744, -123.1888);
    assert!(d.abs() < 0.01);
}

#[test]
fn haversine_known_distance() {
    // Vancouver (49.2827, -123.1207) to North Van (49.3200, -123.0724)
    // ~5.5 km
    let d = haversine_meters(49.2827, -123.1207, 49.3200, -123.0724);
    assert!(d > 4000.0 && d < 7000.0, "distance was {d}");
}


#[test]
fn alarm_triggers_on_drift() {
    let config = AnchorConfig {
        position: AnchorPosition { latitude: r64(49.2744), longitude: r64(-123.1888) },
        radius: r64(50.0),
    };
    // One degree away, about 111 km.
    let delta = incoming(vec![reading(
        "navigation.position",
        jobj(vec![("latitude", jnum(50.2744)), ("longitude", jnum(-123.1888))]),
    )]);
    let distances: Vec<Real> = config.distances(&delta).iter().map(|e| r64(eval(e))).collect();
    let mut watch = AnchorWatch::new();
    let events = check_all(&mut watch, &distances, config.radius);
    assert_eq!(events, vec![Watch::Left]);
    let metres = format!("{:.0}", float(distances[0]));
    let raised = emit_notification(events[0], &metres, "50").unwrap();
    let pv = &raised.updates[0].values[0];
    assert_eq!(pv.path, "notifications.navigation.anchor");
    assert_eq!(raised.updates[0].source.label, "anchor-alarm");
    assert_eq!(text_of(member(&pv.value, "state")), "alarm");
    assert_eq!(
        text_of(member(&pv.value, "message")),
        "Anchor alarm! Vessel is 111195m from anchor (radius: 50m)"
    );
    match member(&pv.value, "method") {
        Value::List(methods) => {
            let names: Vec<&str> = methods.iter().map(text_of).collect();
            assert_eq!(names, vec!["visual", "sound"]);
        }
        other => panic!("{other:?}"),
    }
}

#[test]
fn alarm_is_raised_and_cleared_once() {
    let mut watch = AnchorWatch::new();
    let distances: Vec<Real> =
        [10.0, 50.0, 51.0, 80.0, f64::NAN, 60.0, 50.0, 0.0].iter().map(|x| r64(*x)).collect();
    let events = check_all(&mut watch, &distances, r64(50.0));
    assert_eq!(
        events,
        vec![
            Watch::Steady,
            Watch::Steady,
            Watch::Left,
            Watch::Steady,
            Watch::Returned,
            Watch::Left,
            Watch::Returned,
            Watch::Steady,
        ]
    );
    assert!(!watch.alarming);
    let cleared = emit_notification(Watch::Returned, "12", "50").unwrap();
    let value = &cleared.updates[0].values[0].value;
    assert_eq!(text_of(member(value, "state")), "normal");
    assert_eq!(
        text_of(member(value, "message")),
        "Back within anchor radius (12m, radius: 50m)"
    );
    assert!(emit_notification(Watch::Steady, "12", "50").is_none());
}

#[test]
fn incomplete_positions_are_passed_over() {
    let delta = incoming(vec![
        reading("navigation.position", jobj(vec![("latitude", jnum(1.0))])),
        reading("navigation.headingTrue", jnum(1.0)),
        reading(
            "navigation.position",
            jobj(vec![("latitude", jnum(1.0)), ("longitude", jnum(2.0))]),
        ),
    ]);
    assert_eq!(positions(&delta), vec![(r64(1.0), r64(2.0))]);
}

#[test]
fn anchor_status() {
    assert_eq!(
        status("75", "49.2744", "-123.1888"),
        "Monitoring: radius 75m at (49.2744, -123.1888)"
    );
    assert_eq!(default_radius(), r64(50.0));
}
