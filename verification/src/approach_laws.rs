//! Laws of collision watch: from received values to approaches and their alarms.
use crate::ais_status::{
    approach_delta_view, approach_deltas, approached, collision_delta_view, collision_deltas,
    level_of, limit_metres, own_motion_view, status_delta_view, CpaLimits,
};
use crate::algebra::{
    distance_by_powers, factors_change_places, quotient_times_divisor, signs_move_out,
    square_is_not_negative, vertex_is_least,
};
use crate::cpa::{
    closest_distance, closest_east, closest_north, east, north, offset_east, offset_north,
    relative_east, relative_north, speed_squared, time_to_closest, Motion, EARTH_RADIUS_M, LARGEST,
    SAME_VELOCITY,
};
use crate::expr::{lit, num, Expr};
use crate::ideal::ideal;
use crate::incoming::ReadingView;
use crate::json::{number_at, number_in, text_in, Json, JsonView};
use crate::number::Real;
use crate::paths::{group_paths, one_update_tells_all, only, told, under};
use crate::signalk::{DeltaView, FieldView, NotificationState, ValueView};
use crate::tracker::{
    aged, class_of, consistent, is_tracked, lookup, observed, place_of, silence, snapshot_of,
    snapshots_of, tracked_at, with_cpa, ClassThresholds, CpaResult, CpaSnapshot, SnapshotView,
    StatusTransition, TargetClass, TargetStatus, TargetView, TrackedTarget, TrackerConfig,
    TransitionView,
};
use crate::tracker_laws::{lookup_finds, message_concerns_one_target};
use crate::units::{NM_TO_M, TWO};
use vstd::prelude::*;

verus! {

// ---------------------------------------------------------------------------
// From received values to targets
// ---------------------------------------------------------------------------

/// The paths that a target is known by are different ones.
#[verifier::spinoff_prover]
proof fn target_paths_differ()
    ensures
        "communication.callsignVhf"@ != "name"@,
        "communication.callsignVhf"@ != "navigation.courseOverGroundTrue"@,
        "communication.callsignVhf"@ != "navigation.headingTrue"@,
        "communication.callsignVhf"@ != "navigation.position"@,
        "communication.callsignVhf"@ != "navigation.speedOverGround"@,
        "name"@ != "navigation.courseOverGroundTrue"@,
        "name"@ != "navigation.headingTrue"@,
        "name"@ != "navigation.position"@,
        "name"@ != "navigation.speedOverGround"@,
        "navigation.courseOverGroundTrue"@ != "navigation.headingTrue"@,
        "navigation.courseOverGroundTrue"@ != "navigation.position"@,
        "navigation.courseOverGroundTrue"@ != "navigation.speedOverGround"@,
        "navigation.headingTrue"@ != "navigation.position"@,
        "navigation.headingTrue"@ != "navigation.speedOverGround"@,
        "navigation.position"@ != "navigation.speedOverGround"@,
{
    reveal_strlit("communication.callsignVhf");
    reveal_strlit("name");
    reveal_strlit("navigation.courseOverGroundTrue");
    reveal_strlit("navigation.headingTrue");
    reveal_strlit("navigation.position");
    reveal_strlit("navigation.speedOverGround");
    assert("communication.callsignVhf"@.len() == 25);
    assert("name"@.len() == 4);
    assert("navigation.courseOverGroundTrue"@.len() == 31);
    assert("navigation.headingTrue"@.len() == 22);
    assert("navigation.position"@.len() == 19);
    assert("navigation.speedOverGround"@.len() == 26);
}

/// The last of some received values under a path.
pub open spec fn last_under(values: Seq<ReadingView>, path: Seq<char>) -> Option<JsonView>
    decreases values.len(),
{
    if values.len() == 0 {
        None
    } else if values.last().path == path {
        Some(values.last().value)
    } else {
        last_under(values.drop_last(), path)
    }
}

/// A target's speed, course and heading are the numbers received last under
/// `navigation.speedOverGround`, `navigation.courseOverGroundTrue` and
/// `navigation.headingTrue`, its name and call sign the texts received last; under a path
/// where nothing was received, what was known stays.
pub proof fn target_knows_what_was_received_last(t: TargetView, values: Seq<ReadingView>)
    ensures
        ({
            let after = t.with_values(values);
            &&& after.sog == (match last_under(values, "navigation.speedOverGround"@) {
                Some(j) => number_in(j),
                None => t.sog,
            })
            &&& after.cog == (match last_under(values, "navigation.courseOverGroundTrue"@) {
                Some(j) => number_in(j),
                None => t.cog,
            })
            &&& after.heading == (match last_under(values, "navigation.headingTrue"@) {
                Some(j) => number_in(j),
                None => t.heading,
            })
            &&& after.name == (match last_under(values, "name"@) {
                Some(j) => text_in(j),
                None => t.name,
            })
            &&& after.callsign == (match last_under(values, "communication.callsignVhf"@) {
                Some(j) => text_in(j),
                None => t.callsign,
            })
            &&& last_under(values, "navigation.position"@) is None ==> after.position == t.position
        }),
    decreases values.len(),
{
    target_paths_differ();
    if values.len() > 0 {
        target_knows_what_was_received_last(t, values.drop_last());
    }
}

/// A target's position is the one received last under `navigation.position`, with the number
/// called `latitude` first, where both coordinates are numbers.
pub proof fn target_knows_its_position(
    t: TargetView,
    values: Seq<ReadingView>,
    j: JsonView,
    lat: Real,
    lon: Real,
)
    requires
        last_under(values, "navigation.position"@) == Some(j),
        number_at(j, "latitude"@) == Some(lat),
        number_at(j, "longitude"@) == Some(lon),
    ensures
        t.with_values(values).position == Some((lat, lon)),
    decreases values.len(),
{
    target_paths_differ();
    if values.last().path != "navigation.position"@ {
        target_knows_its_position(t, values.drop_last(), j, lat, lon);
    }
}

// ---------------------------------------------------------------------------
// From targets to snapshots
// ---------------------------------------------------------------------------

/// Every snapshot is that of a target.
proof fn snapshot_has_a_target(list: Seq<TargetView>, i: int) -> (j: int)
    requires
        0 <= i < snapshots_of(list).len(),
    ensures
        0 <= j < list.len(),
        snapshot_of(list[j]) == Some(snapshots_of(list)[i]),
    decreases list.len(),
{
    let rest = list.drop_last();
    if i < snapshots_of(rest).len() {
        snapshot_has_a_target(rest, i)
    } else {
        list.len() - 1
    }
}

/// Every target that has a snapshot is among them.
proof fn target_has_its_snapshot(list: Seq<TargetView>, j: int) -> (i: int)
    requires
        0 <= j < list.len(),
        snapshot_of(list[j]) is Some,
    ensures
        0 <= i < snapshots_of(list).len(),
        snapshot_of(list[j]) == Some(snapshots_of(list)[i]),
    decreases list.len(),
{
    let rest = list.drop_last();
    if j == list.len() - 1 {
        snapshots_of(rest).len() as int
    } else {
        target_has_its_snapshot(rest, j)
    }
}

/// A snapshot is there exactly of the confirmed targets whose position is known. It has the
/// target's latitude and longitude, its speed as the speed and its course as the course, each
/// zero where it is not known, and the level of its notification.
pub proof fn snapshots_show_confirmed_targets(list: Seq<TargetView>, mmsi: Seq<char>)
    requires
        consistent(list),
    ensures
        (exists|i: int|
            0 <= i < snapshots_of(list).len() && (#[trigger] snapshots_of(list)[i]).mmsi == mmsi)
            <==> (lookup(list, mmsi) matches Some(t) && t.status is Confirmed
                && t.position is Some),
        forall|i: int|
            0 <= i < snapshots_of(list).len() && (#[trigger] snapshots_of(list)[i]).mmsi == mmsi
                ==> {
                let s = snapshots_of(list)[i];
                &&& lookup(list, mmsi) matches Some(t)
                &&& t.position == Some((s.lat, s.lon))
                &&& t.sog is Some ==> t.sog == Some(s.sog_ms)
                &&& t.sog is None ==> s.sog_ms.bits == 0
                &&& t.cog is Some ==> t.cog == Some(s.cog_rad)
                &&& t.cog is None ==> s.cog_rad.bits == 0
                &&& s.cpa_level == t.cpa_level
                &&& s.context == t.context
            },
{
    assert forall|i: int|
        0 <= i < snapshots_of(list).len() && (#[trigger] snapshots_of(list)[i]).mmsi
            == mmsi implies lookup(list, mmsi) is Some && snapshot_of(lookup(list, mmsi)->0)
        == Some(snapshots_of(list)[i]) by {
        let j = snapshot_has_a_target(list, i);
        lookup_finds(list, j);
    }
    if let Some(t) = lookup(list, mmsi) {
        let j = place_of(list, mmsi);
        assert(tracked_at(list, mmsi, j));
        if snapshot_of(t) is Some {
            let i = target_has_its_snapshot(list, j);
            assert(snapshots_of(list)[i].mmsi == mmsi);
        }
    }
}

/// A target that received a position, a number under `navigation.speedOverGround` and one
/// under `navigation.courseOverGroundTrue`, and is confirmed, is watched at that position with
/// that speed and that course.
pub proof fn received_motion_is_watched(
    list: Seq<TargetView>,
    mmsi: Seq<char>,
    thresholds: ClassThresholds,
    values: Seq<ReadingView>,
    now: u64,
    place: JsonView,
    lat: Real,
    lon: Real,
    speed: Real,
    course: Real,
)
    requires
        consistent(list),
        lookup(observed(list, mmsi, thresholds, values, now), mmsi) matches Some(t) && t.status is
            Confirmed,
        last_under(values, "navigation.position"@) == Some(place),
        number_at(place, "latitude"@) == Some(lat),
        number_at(place, "longitude"@) == Some(lon),
        last_under(values, "navigation.speedOverGround"@) == Some(JsonView::Number(speed)),
        last_under(values, "navigation.courseOverGroundTrue"@) == Some(JsonView::Number(course)),
    ensures
        ({
            let snaps = snapshots_of(observed(list, mmsi, thresholds, values, now));
            &&& exists|i: int| 0 <= i < snaps.len() && (#[trigger] snaps[i]).mmsi == mmsi
            &&& forall|i: int|
                0 <= i < snaps.len() && (#[trigger] snaps[i]).mmsi == mmsi ==> snaps[i].lat == lat
                    && snaps[i].lon == lon && snaps[i].sog_ms == speed && snaps[i].cog_rad
                    == course
        }),
{
    let next = observed(list, mmsi, thresholds, values, now);
    message_concerns_one_target(list, mmsi, thresholds, values, now, mmsi);
    let before = crate::tracker::sighted(list, mmsi, thresholds, now);
    target_knows_what_was_received_last(before, values);
    target_knows_its_position(before, values, place, lat, lon);
    observed_stays_consistent(list, mmsi, thresholds, values, now);
    snapshots_show_confirmed_targets(next, mmsi);
}

/// A message keeps the targets consistent.
proof fn observed_stays_consistent(
    list: Seq<TargetView>,
    mmsi: Seq<char>,
    thresholds: ClassThresholds,
    values: Seq<ReadingView>,
    now: u64,
)
    requires
        consistent(list),
    ensures
        consistent(observed(list, mmsi, thresholds, values, now)),
{
    let next = observed(list, mmsi, thresholds, values, now);
    crate::tracker::keeps_identity(
        crate::tracker::sighted(list, mmsi, thresholds, now),
        values,
    );
    if is_tracked(list, mmsi) {
        let p = place_of(list, mmsi);
        assert(tracked_at(list, mmsi, p));
        crate::tracker::keeps_identity(list[p], values);
        assert forall|i: int, j: int| 0 <= i < j < next.len() implies #[trigger] next[i].mmsi
            != #[trigger] next[j].mmsi by {
            assert(next[i].mmsi == list[i].mmsi && next[j].mmsi == list[j].mmsi);
        }
        assert forall|i: int| 0 <= i < next.len() implies (#[trigger] next[i]).context
            == crate::tracker::mmsi_prefix() + next[i].mmsi by {
            assert(next[i].mmsi == list[i].mmsi && next[i].context == list[i].context);
        }
    } else {
        assert forall|i: int, j: int| 0 <= i < j < next.len() implies #[trigger] next[i].mmsi
            != #[trigger] next[j].mmsi by {
            if j == list.len() {
                assert(!tracked_at(list, mmsi, i));
            }
        }
    }
}

/// The own vessel moves as its stored values say: at its position, with the number stored as
/// speed and the one stored as course, zero where there is none.
pub proof fn own_motion_is_what_is_stored(
    position: Option<Json>,
    sog: Option<Json>,
    cog: Option<Json>,
)
    ensures
        own_motion_view(position, sog, cog) is Some <==> (position matches Some(p) && number_at(
            p@,
            "latitude"@,
        ) is Some && number_at(p@, "longitude"@) is Some),
        own_motion_view(position, sog, cog) matches Some(m) ==> {
            &&& number_at(position->0@, "latitude"@) == Some(m.lat)
            &&& number_at(position->0@, "longitude"@) == Some(m.lon)
            &&& if sog is Some && sog->0@ is Number {
                sog->0@ == JsonView::Number(m.sog_ms)
            } else {
                m.sog_ms.bits == 0
            }
            &&& if cog is Some && cog->0@ is Number {
                cog->0@ == JsonView::Number(m.cog_rad)
            } else {
                m.cog_rad.bits == 0
            }
        },
{
}

// ---------------------------------------------------------------------------
// From motions to approaches
// ---------------------------------------------------------------------------

/// Where the target is east of the own vessel after a time, both keeping course and speed, on
/// a plane around the mean latitude.
pub open spec fn apart_east(
    ev: spec_fn(Expr) -> real,
    own: Motion,
    target: Motion,
    t: real,
) -> real {
    let mean = num(own.lat).plus(num(target.lat)).over(lit(TWO)).to_radians();
    let degree = ev(lit(crate::units::PI)) / 180real * ev(lit(EARTH_RADIUS_M));
    let now = (ev(num(target.lon)) - ev(num(own.lon))) * ev(mean.cos()) * degree;
    let speed = ev(num(target.sog_ms)) * ev(num(target.cog_rad).sin()) - ev(num(own.sog_ms)) * ev(
        num(own.cog_rad).sin(),
    );
    now + speed * t
}

/// Where the target is north of the own vessel after a time, both keeping course and speed.
pub open spec fn apart_north(
    ev: spec_fn(Expr) -> real,
    own: Motion,
    target: Motion,
    t: real,
) -> real {
    let degree = ev(lit(crate::units::PI)) / 180real * ev(lit(EARTH_RADIUS_M));
    let now = (ev(num(target.lat)) - ev(num(own.lat))) * degree;
    let speed = ev(num(target.sog_ms)) * ev(num(target.cog_rad).cos()) - ev(num(own.sog_ms)) * ev(
        num(own.cog_rad).cos(),
    );
    now + speed * t
}

/// The closest approach is the closest: at the time that is given for it, which may lie in the
/// past, the vessels are as far apart as the distance that is given, and at no other time are
/// they closer. Both keep course and speed.
pub proof fn closest_approach_is_closest(
    ev: spec_fn(Expr) -> real,
    own: Motion,
    target: Motion,
    t: real,
)
    requires
        ideal(ev),
        ev(lit(SAME_VELOCITY)) > 0real,
        ev(speed_squared(own, target)) >= ev(lit(SAME_VELOCITY)),
        -ev(lit(LARGEST)) <= ev(time_to_closest(own, target)) <= ev(lit(LARGEST)),
    ensures
        ({
            let d = ev(closest_distance(own, target));
            let at = ev(time_to_closest(own, target));
            let x = apart_east(ev, own, target, at);
            let y = apart_north(ev, own, target, at);
            &&& d >= 0real
            &&& d * d == x * x + y * y
            &&& d * d <= apart_east(ev, own, target, t) * apart_east(ev, own, target, t)
                + apart_north(ev, own, target, t) * apart_north(ev, own, target, t)
        }),
{
    let pi = ev(lit(crate::units::PI));
    let r = ev(lit(EARTH_RADIUS_M));
    let mean = num(own.lat).plus(num(target.lat)).over(lit(TWO)).to_radians();
    let c = ev(mean.cos());
    let dlon = num(target.lon).minus(num(own.lon));
    let dlat = num(target.lat).minus(num(own.lat));
    let rlon = ev(dlon.to_radians());
    let rlat = ev(dlat.to_radians());
    assert(rlon * 180real == ev(dlon) * pi);
    assert(rlat * 180real == ev(dlat) * pi);
    let k = pi / 180real;
    let x = ev(dlon);
    let y = ev(dlat);
    assert(pi == k * 180real);
    factors_change_places(x, k, 180real);
    factors_change_places(y, k, 180real);
    assert(rlon == x * k);
    assert(rlat == y * k);
    factors_change_places(x, k, c);
    factors_change_places(x * c, k, r);
    factors_change_places(y, k, r);
    let px = ev(offset_east(own, target));
    let py = ev(offset_north(own, target));
    let vx = ev(relative_east(own, target));
    let vy = ev(relative_north(own, target));
    let v = ev(speed_squared(own, target));
    assert(px == rlon * c * r);
    assert(py == rlat * r);
    assert(ev(east(own)) == ev(num(own.sog_ms)) * ev(num(own.cog_rad).sin()));
    assert(ev(north(own)) == ev(num(own.sog_ms)) * ev(num(own.cog_rad).cos()));
    assert(ev(east(target)) == ev(num(target.sog_ms)) * ev(num(target.cog_rad).sin()));
    assert(ev(north(target)) == ev(num(target.sog_ms)) * ev(num(target.cog_rad).cos()));
    assert(v == vx * vx + vy * vy);
    let at = ev(time_to_closest(own, target));
    let dot = offset_east(own, target).times(relative_east(own, target)).plus(
        offset_north(own, target).times(relative_north(own, target)),
    );
    assert(ev(dot) == px * vx + py * vy);
    assert(ev(dot.negated().over(speed_squared(own, target))) == -(px * vx + py * vy) / v);
    assert(at == -(px * vx + py * vy) / v);
    let a = px * vx + py * vy;
    quotient_times_divisor(-a, v);
    distance_by_powers(px, py, vx, vy, t);
    distance_by_powers(px, py, vx, vy, at);
    vertex_is_least(px * px + py * py, a, v, at, t);
    let cx = ev(closest_east(own, target));
    let cy = ev(closest_north(own, target));
    assert(cx == px + vx * at);
    assert(cy == py + vy * at);
    assert(ev(time_to_closest(own, target).absolute()) <= ev(lit(LARGEST)));
    let square = closest_east(own, target).times(closest_east(own, target)).plus(
        closest_north(own, target).times(closest_north(own, target)),
    );
    assert(ev(square) == cx * cx + cy * cy);
    square_is_not_negative(1real, cx);
    square_is_not_negative(1real, cy);
    assert(ev(closest_distance(own, target)) == ev(square.sqrt()));
    assert(apart_east(ev, own, target, at) == cx);
    assert(apart_north(ev, own, target, at) == cy);
    assert(apart_east(ev, own, target, t) == px + vx * t);
    assert(apart_north(ev, own, target, t) == py + vy * t);
}

// ---------------------------------------------------------------------------
// From approaches to alarms
// ---------------------------------------------------------------------------

/// An approach is alarmed of exactly where it lies ahead, but nearer than the time limit, and
/// is closer than the alarm distance; it is warned of where it is only closer than the warning
/// distance.
pub proof fn threats_are_near_in_time_and_space(cpa: CpaResult, limits: CpaLimits)
    ensures
        ({
            let ahead = (Real { bits: 0 }).lt(cpa.tcpa_s) && cpa.tcpa_s.lt(limits.tcpa_max_s);
            let alarm = limits.alarm_m matches Some(m) && cpa.cpa_m.lt(m);
            let warn = limits.warn_m matches Some(m) && cpa.cpa_m.lt(m);
            &&& level_of(cpa, limits) == Some(NotificationState::Alarm) <==> ahead && alarm
            &&& level_of(cpa, limits) == Some(NotificationState::Warn) <==> ahead && !alarm && warn
            &&& level_of(cpa, limits) is None <==> !(ahead && (alarm || warn))
        }),
{
}

/// The paths of an approach are different ones.
proof fn approach_paths_differ()
    ensures
        "navigation.closestApproach.distance"@ != "navigation.closestApproach.timeTo"@,
        "sensors.ais.status"@ != "sensors.ais.class"@,
{
    reveal_strlit("navigation.closestApproach.distance");
    reveal_strlit("navigation.closestApproach.timeTo");
    reveal_strlit("sensors.ais.status");
    reveal_strlit("sensors.ais.class");
    assert("navigation.closestApproach.distance"@.len() == 35);
    assert("navigation.closestApproach.timeTo"@.len() == 33);
    assert("sensors.ais.status"@.len() == 18);
    assert("sensors.ais.class"@.len() == 17);
}

/// An approach is told of the target: its distance and the time until it.
pub proof fn approach_is_told_of_its_target(snap: SnapshotView, cpa: CpaResult)
    ensures
        ({
            let d = approach_delta_view(snap, cpa);
            &&& d.context == Some(snap.context)
            &&& told(Some(d), "navigation.closestApproach.distance"@) == only(
                Expr::Lit(cpa.cpa_m),
            )
            &&& told(Some(d), "navigation.closestApproach.timeTo"@) == only(Expr::Lit(cpa.tcpa_s))
        }),
{
    approach_paths_differ();
    broadcast use group_paths;

    let d = approach_delta_view(snap, cpa);
    one_update_tells_all(d, "navigation.closestApproach.distance"@);
    one_update_tells_all(d, "navigation.closestApproach.timeTo"@);
    assert(under(d.updates[0].values, "navigation.closestApproach.distance"@) =~= only(
        Expr::Lit(cpa.cpa_m),
    ));
    assert(under(d.updates[0].values, "navigation.closestApproach.timeTo"@) =~= only(
        Expr::Lit(cpa.tcpa_s),
    ));
}

/// A collision notification names its state, how it is given and what it says.
pub open spec fn notice(
    state: Seq<char>,
    methods: Seq<ValueView>,
    message: Seq<char>,
) -> Seq<ValueView> {
    seq![
        ValueView::Object(
            seq![
                FieldView { key: "state"@, value: ValueView::Text(state) },
                FieldView { key: "method"@, value: ValueView::List(methods) },
                FieldView { key: "message"@, value: ValueView::Text(message) },
            ],
        ),
    ]
}

/// A collision notification stands with the own vessel, under the MMSI of the target. An alarm
/// is seen and heard, a warning is seen, and where neither is due the notification is normal.
pub proof fn collision_is_told_of_the_own_vessel(
    mmsi: Seq<char>,
    level: Option<NotificationState>,
)
    requires
        level is None || level == Some(NotificationState::Alarm) || level == Some(
            NotificationState::Warn,
        ),
    ensures
        ({
            let d = collision_delta_view(mmsi, level);
            let path = "notifications.collision.mmsi-"@ + mmsi;
            &&& d.context == Some("vessels.self"@)
            &&& told(Some(d), path) == (match level {
                Some(NotificationState::Alarm) => notice(
                    "alarm"@,
                    seq![ValueView::Text("visual"@), ValueView::Text("sound"@)],
                    "Collision risk: MMSI "@ + mmsi,
                ),
                Some(_) => notice(
                    "warn"@,
                    seq![ValueView::Text("visual"@)],
                    "Collision risk: MMSI "@ + mmsi,
                ),
                None => notice("normal"@, Seq::empty(), ""@),
            })
        }),
{
    broadcast use group_paths;

    let d = collision_delta_view(mmsi, level);
    let path = "notifications.collision.mmsi-"@ + mmsi;
    one_update_tells_all(d, path);
    let named = |m: crate::signalk::NotificationMethod| ValueView::Text(m.name());
    let visual = crate::signalk::NotificationMethod::Visual;
    let sound = crate::signalk::NotificationMethod::Sound;
    assert(seq![visual, sound].map_values(named) =~= seq![
        ValueView::Text("visual"@),
        ValueView::Text("sound"@),
    ]);
    assert(seq![visual].map_values(named) =~= seq![ValueView::Text("visual"@)]);
    assert(Seq::<crate::signalk::NotificationMethod>::empty().map_values(named) =~= Seq::<
        ValueView,
    >::empty());
}

/// In a round every target that has an approach is told of, with its own approach.
pub proof fn every_approach_is_told(
    snaps: Seq<SnapshotView>,
    results: Seq<Option<CpaResult>>,
    i: int,
    cpa: CpaResult,
)
    requires
        snaps.len() <= results.len(),
        0 <= i < snaps.len(),
        results[i] == Some(cpa),
    ensures
        approach_deltas(snaps, results).contains(approach_delta_view(snaps[i], cpa)),
    decreases snaps.len(),
{
    let rest = snaps.drop_last();
    let all = approach_deltas(snaps, results);
    if i == snaps.len() - 1 {
        assert(all.last() == approach_delta_view(snaps[i], cpa));
    } else {
        every_approach_is_told(rest, results, i, cpa);
        let d = approach_delta_view(snaps[i], cpa);
        let before = approach_deltas(rest, results);
        let k = choose|k: int| 0 <= k < before.len() && before[k] == d;
        assert(all[k] == d);
    }
}

/// In a round a collision notification is sent of a target exactly where its level changes.
pub proof fn every_change_of_level_is_told(
    snaps: Seq<SnapshotView>,
    results: Seq<Option<CpaResult>>,
    limits: CpaLimits,
    i: int,
    cpa: CpaResult,
)
    requires
        snaps.len() <= results.len(),
        0 <= i < snaps.len(),
        results[i] == Some(cpa),
        level_of(cpa, limits) != snaps[i].cpa_level,
    ensures
        collision_deltas(snaps, results, limits).contains(
            collision_delta_view(snaps[i].mmsi, level_of(cpa, limits)),
        ),
    decreases snaps.len(),
{
    let rest = snaps.drop_last();
    let all = collision_deltas(snaps, results, limits);
    let d = collision_delta_view(snaps[i].mmsi, level_of(cpa, limits));
    if i == snaps.len() - 1 {
        assert(all.last() == d);
    } else {
        every_change_of_level_is_told(rest, results, limits, i, cpa);
        let before = collision_deltas(rest, results, limits);
        let k = choose|k: int| 0 <= k < before.len() && before[k] == d;
        assert(all[k] == d);
    }
}

/// A round without a change of level sends no collision notification.
pub proof fn steady_round_is_quiet(
    snaps: Seq<SnapshotView>,
    results: Seq<Option<CpaResult>>,
    limits: CpaLimits,
)
    requires
        snaps.len() <= results.len(),
        forall|i: int|
            0 <= i < snaps.len() ==> (#[trigger] results[i] matches Some(cpa) ==> level_of(
                cpa,
                limits,
            ) == snaps[i].cpa_level),
    ensures
        collision_deltas(snaps, results, limits) == Seq::<DeltaView>::empty(),
    decreases snaps.len(),
{
    if snaps.len() > 0 {
        let rest = snaps.drop_last();
        assert forall|i: int| 0 <= i < rest.len() implies (#[trigger] results[i] matches Some(cpa)
            ==> level_of(cpa, limits) == rest[i].cpa_level) by {
            assert(rest[i] == snaps[i]);
        }
        steady_round_is_quiet(rest, results, limits);
        let last = results[snaps.len() - 1];
    }
}

/// Storing an approach changes the target it is of, and no other.
proof fn storing_concerns_one_target(
    list: Seq<TargetView>,
    mmsi: Seq<char>,
    cpa: CpaResult,
    level: Option<NotificationState>,
    other: Seq<char>,
)
    requires
        consistent(list),
    ensures
        consistent(with_cpa(list, mmsi, cpa, level)),
        lookup(with_cpa(list, mmsi, cpa, level), other) == (match lookup(list, other) {
            Some(t) => Some(
                if other == mmsi {
                    TargetView { cpa: Some(cpa), cpa_level: level, ..t }
                } else {
                    t
                },
            ),
            None => None,
        }),
{
    let next = with_cpa(list, mmsi, cpa, level);
    if is_tracked(list, mmsi) {
        let p = place_of(list, mmsi);
        assert(tracked_at(list, mmsi, p));
        assert forall|i: int, j: int| 0 <= i < j < next.len() implies #[trigger] next[i].mmsi
            != #[trigger] next[j].mmsi by {
            assert(next[i].mmsi == list[i].mmsi && next[j].mmsi == list[j].mmsi);
        }
        assert forall|i: int| 0 <= i < next.len() implies (#[trigger] next[i]).context
            == crate::tracker::mmsi_prefix() + next[i].mmsi by {
            assert(next[i].mmsi == list[i].mmsi && next[i].context == list[i].context);
        }
        if is_tracked(list, other) {
            let k = place_of(list, other);
            assert(tracked_at(list, other, k));
            assert(tracked_at(next, other, k));
            lookup_finds(next, k);
            lookup_finds(list, k);
            lookup_finds(list, p);
            if k != p {
                assert(list[k].mmsi != list[p].mmsi);
            }
        } else if is_tracked(next, other) {
            assert(tracked_at(list, other, place_of(next, other)));
        }
    }
}

/// After a round every target that had an approach holds it, with its level; the others hold
/// what they held.
pub proof fn round_stores_every_approach(
    list: Seq<TargetView>,
    snaps: Seq<SnapshotView>,
    results: Seq<Option<CpaResult>>,
    limits: CpaLimits,
    t: TargetView,
)
    requires
        consistent(list),
        snaps.len() <= results.len(),
        forall|i: int, j: int|
            0 <= i < j < snaps.len() ==> #[trigger] snaps[i].mmsi != #[trigger] snaps[j].mmsi,
        lookup(list, t.mmsi) == Some(t),
    ensures
        consistent(approached(list, snaps, results, limits)),
        forall|i: int|
            #![trigger snaps[i]]
            0 <= i < snaps.len() && snaps[i].mmsi == t.mmsi ==> (results[i] matches Some(cpa)
                ==> lookup(approached(list, snaps, results, limits), t.mmsi) == Some(
                TargetView { cpa: Some(cpa), cpa_level: level_of(cpa, limits), ..t },
            )),
        (forall|i: int|
            #![trigger snaps[i]]
            0 <= i < snaps.len() && snaps[i].mmsi == t.mmsi ==> results[i] is None) ==> lookup(
            approached(list, snaps, results, limits),
            t.mmsi,
        ) == Some(t),
    decreases snaps.len(),
{
    if snaps.len() > 0 {
        let rest = snaps.drop_last();
        let last = snaps.len() - 1;
        assert forall|i: int, j: int| 0 <= i < j < rest.len() implies #[trigger] rest[i].mmsi
            != #[trigger] rest[j].mmsi by {
            assert(rest[i] == snaps[i] && rest[j] == snaps[j]);
        }
        round_stores_every_approach(list, rest, results, limits, t);
        let before = approached(list, rest, results, limits);
        if let Some(cpa) = results[last] {
            storing_concerns_one_target(
                before,
                snaps[last].mmsi,
                cpa,
                level_of(cpa, limits),
                t.mmsi,
            );
        }
        assert forall|i: int|
            #![trigger snaps[i]]
            0 <= i < snaps.len() && snaps[i].mmsi == t.mmsi && results[i] is Some implies lookup(
            approached(list, snaps, results, limits),
            t.mmsi,
        ) == Some(
            TargetView {
                cpa: Some(results[i]->0),
                cpa_level: level_of(results[i]->0, limits),
                ..t
            },
        ) by {
            if i < last {
                assert(rest[i] == snaps[i]);
                assert(snaps[i].mmsi != snaps[last].mmsi);
            } else {
                assert forall|k: int|
                    #![trigger rest[k]]
                    0 <= k < rest.len() && rest[k].mmsi == t.mmsi implies results[k] is None by {
                    assert(rest[k] == snaps[k]);
                    assert(snaps[k].mmsi != snaps[last].mmsi);
                }
            }
        }
        if forall|i: int|
            #![trigger snaps[i]]
            0 <= i < snaps.len() && snaps[i].mmsi == t.mmsi ==> results[i] is None {
            assert forall|k: int|
                #![trigger rest[k]]
                0 <= k < rest.len() && rest[k].mmsi == t.mmsi implies results[k] is None by {
                assert(rest[k] == snaps[k]);
            }
            assert(snaps[last].mmsi == t.mmsi ==> results[last] is None);
        }
    }
}

// ---------------------------------------------------------------------------
// Status
// ---------------------------------------------------------------------------

/// What time makes of a target: an unconfirmed one is dropped after its window, a confirmed one
/// is lost after its time of silence, a lost one is dropped after that and its time to removal.
pub proof fn silence_ends_targets(t: TargetView, now: u64)
    ensures
        aged(t, now) is None <==> {
            ||| t.status is Unconfirmed && silence(t, now) > t.thresholds.confirm_window
                * 1_000_000_000
            ||| t.status is Lost && silence(t, now) > (t.thresholds.lost_after
                + t.thresholds.remove_after) * 1_000_000_000
        },
        aged(t, now) matches Some(after) ==> {
            &&& after == (TargetView { status: after.status, ..t })
            &&& after.status != t.status <==> t.status is Confirmed && silence(t, now)
                > t.thresholds.lost_after * 1_000_000_000
            &&& after.status != t.status ==> after.status is Lost
        },
{
}

/// A change of status is told of the target, by the name of the new status; the class is told
/// with the first confirmation.
pub proof fn status_is_told_of_its_target(t: TransitionView)
    requires
        t.context == "vessels.urn:mrn:imo:mmsi:"@ + t.mmsi,
    ensures
        ({
            let d = status_delta_view(t);
            &&& d.context == Some(t.context)
            &&& told(Some(d), "sensors.ais.status"@) == seq![
                ValueView::Text(
                    match t.new_status {
                        TargetStatus::Unconfirmed => "unconfirmed"@,
                        TargetStatus::Confirmed => "confirmed"@,
                        TargetStatus::Lost => "lost"@,
                    },
                ),
            ]
            &&& told(Some(d), "sensors.ais.class"@) == if t.old_status is Unconfirmed
                && t.new_status is Confirmed {
                seq![
                    ValueView::Text(
                        match class_of(t.mmsi) {
                            TargetClass::Vessel => "A"@,
                            TargetClass::Aton => "aton"@,
                            TargetClass::Base => "base"@,
                            TargetClass::Sar => "sar"@,
                        },
                    ),
                ]
            } else {
                Seq::empty()
            }
        }),
{
    approach_paths_differ();
    broadcast use group_paths;

    let d = status_delta_view(t);
    one_update_tells_all(d, "sensors.ais.status"@);
    one_update_tells_all(d, "sensors.ais.class"@);
    let prefix = "vessels.urn:mrn:imo:mmsi:"@;
    assert(t.context.subrange(0, prefix.len() as int) =~= prefix);
    assert(t.context.skip(prefix.len() as int) =~= t.mmsi);
}

/// The class of a target is that of its first digits: 97 for aids to navigation, 00 for base
/// stations, 111 for aircraft; all others are vessels.
pub proof fn first_digits_tell_the_class(mmsi: Seq<char>)
    ensures
        class_of(mmsi) is Aton <==> mmsi.len() >= 2 && mmsi[0] == '9' && mmsi[1] == '7',
        class_of(mmsi) is Base <==> mmsi.len() >= 2 && mmsi[0] == '0' && mmsi[1] == '0',
        class_of(mmsi) is Sar <==> mmsi.len() >= 3 && mmsi[0] == '1' && mmsi[1] == '1' && mmsi[2]
            == '1',
{
    reveal_strlit("97");
    reveal_strlit("00");
    reveal_strlit("111");
    if mmsi.len() >= 2 {
        assert(mmsi.subrange(0, 2) =~= seq![mmsi[0], mmsi[1]]);
        assert("97"@ =~= seq!['9', '7']);
        assert("00"@ =~= seq!['0', '0']);
        assert(seq![mmsi[0], mmsi[1]][0] == mmsi[0] && seq![mmsi[0], mmsi[1]][1] == mmsi[1]);
    }
    if mmsi.len() >= 3 {
        assert(mmsi.subrange(0, 3) =~= seq![mmsi[0], mmsi[1], mmsi[2]]);
        assert("111"@ =~= seq!['1', '1', '1']);
        let s = seq![mmsi[0], mmsi[1], mmsi[2]];
        assert(s[0] == mmsi[0] && s[1] == mmsi[1] && s[2] == mmsi[2]);
        let o = seq!['1', '1', '1'];
        assert(o[0] == '1' && o[1] == '1' && o[2] == '1');
    }
    let a = seq!['9', '7'];
    let b = seq!['0', '0'];
    assert(a[0] == '9' && a[1] == '7' && b[0] == '0' && b[1] == '0');
}

/// A threshold that is set for a class takes the place of that class's default, and of no other
/// threshold or class.
pub proof fn set_thresholds_take_their_place(config: TrackerConfig, class: TargetClass)
    ensures
        ({
            let base = ClassThresholds::for_class(class);
            let set = match class {
                TargetClass::Vessel => config.vessel,
                TargetClass::Aton => config.aton,
                TargetClass::Base => config.base,
                TargetClass::Sar => config.sar,
            };
            let r = config.thresholds(class);
            match set {
                None => r == base,
                Some(o) => {
                    &&& o.confirm_count matches Some(n) ==> r.confirm_count == n
                    &&& o.confirm_count is None ==> r.confirm_count == base.confirm_count
                    &&& o.confirm_window_secs matches Some(n) ==> r.confirm_window == n
                    &&& o.confirm_window_secs is None ==> r.confirm_window == base.confirm_window
                    &&& o.lost_after_secs matches Some(n) ==> r.lost_after == n
                    &&& o.lost_after_secs is None ==> r.lost_after == base.lost_after
                    &&& o.remove_after_secs matches Some(n) ==> r.remove_after == n
                    &&& o.remove_after_secs is None ==> r.remove_after == base.remove_after
                },
            }
        }),
{
}

/// A target that changes its status makes a transition, which names the target, its context, and
/// the status before and after; one that keeps its status makes none.
pub proof fn transition_names_its_target(t: TargetView, status: TargetStatus)
    ensures
        t.transition_to(status) is None <==> status == t.status,
        t.transition_to(status) matches Some(x) ==> x.mmsi == t.mmsi && x.context == t.context
            && x.old_status == t.status && x.new_status == status,
{
}

/// What is known of a target, a snapshot and a transition is what their members hold.
pub proof fn targets_hold_what_is_known(t: TrackedTarget, s: CpaSnapshot, x: StatusTransition)
    ensures
        t@.mmsi == t.mmsi@,
        t@.context == t.context@,
        t@.class == t.class,
        t@.status == t.status,
        t@.first_seen == t.first_seen,
        t@.last_seen == t.last_seen,
        t@.message_count == t.message_count,
        t@.position == t.position,
        t@.sog == t.sog,
        t@.cog == t.cog,
        t@.heading == t.heading,
        t@.cpa == t.cpa,
        t@.cpa_level == t.cpa_level,
        s@.mmsi == s.mmsi@,
        s@.context == s.context@,
        s@.lat == s.lat,
        s@.lon == s.lon,
        s@.sog_ms == s.sog_ms,
        s@.cog_rad == s.cog_rad,
        s@.cpa_level == s.cpa_level,
        x@.mmsi == x.mmsi@,
        x@.context == x.context@,
        x@.old_status == x.old_status,
        x@.new_status == x.new_status,
{
}

/// A limit in nautical miles is watched in metres; without one there is none to watch.
pub proof fn limits_are_watched_in_metres(ev: spec_fn(Expr) -> real, limit: Option<Real>)
    requires
        ideal(ev),
    ensures
        match limit {
            Some(miles) => limit_metres(limit) matches Some(e) && ev(e) == ev(lit(NM_TO_M)) * ev(
                num(miles),
            ),
            None => limit_metres(limit) is None,
        },
{
    if let Some(miles) = limit {
        signs_move_out(ev(num(miles)), ev(lit(NM_TO_M)));
    }
}

/// Where the closest approach is endlessly far off, ahead or behind, the distance is the present
/// one.
pub proof fn endless_time_leaves_the_present_distance(
    ev: spec_fn(Expr) -> real,
    own: Motion,
    target: Motion,
)
    requires
        ideal(ev),
        ev(time_to_closest(own, target)) > ev(lit(LARGEST)) || -ev(time_to_closest(own, target))
            > ev(lit(LARGEST)),
        ev(lit(LARGEST)) > 0real,
    ensures
        ({
            let d = ev(closest_distance(own, target));
            let x = ev(offset_east(own, target));
            let y = ev(offset_north(own, target));
            d >= 0real && d * d == x * x + y * y
        }),
{
    square_is_not_negative(1real, ev(offset_east(own, target)));
    square_is_not_negative(1real, ev(offset_north(own, target)));
    let x = offset_east(own, target);
    let y = offset_north(own, target);
    assert(ev(x.times(x).plus(y.times(y))) == ev(x) * ev(x) + ev(y) * ev(y));
}

} // verus!
