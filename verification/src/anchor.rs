//! The anchor alarm: a notification when the vessel drifts out of a circle
//! around the anchor, and another one when it comes back.
use crate::cpa::EARTH_RADIUS_M;
use crate::derived::geo::haversine_meters;
use crate::derived::meaning::{arc_has_its_haversine, haversine_value};
use crate::expr::{lit, Expr};
use crate::ideal::ideal;
use crate::incoming::{all_values, readings, update_views, Incoming, ReadingView};
use crate::json::{number_at, position_in, position_of};
use crate::number::Real;
use crate::paths::{group_paths, one_update_tells_all, told, under};
use crate::signalk::{
    no_values, notification, notification_view, one_entry, plugin_source, push, self_delta_view,
    Delta, DeltaView, NotificationMethod, NotificationState, Source,
};
use crate::text::{equal, join};
use vstd::prelude::*;
use vstd::string::*;

verus! {

/// 50.
pub const FIFTY: u64 = 0x4049_0000_0000_0000;

/// The radius that is watched by default, in metres.
#[verifier::allow_in_spec]
pub fn default_radius() -> (r: Real)
    returns
        (Real { bits: FIFTY }),
{
    Real { bits: FIFTY }
}

/// Where the anchor was dropped, in decimal degrees.
#[derive(Debug, Clone, Copy)]
pub struct AnchorPosition {
    pub latitude: Real,
    pub longitude: Real,
}

/// The circle that is watched.
#[derive(Debug, Clone, Copy)]
pub struct AnchorConfig {
    pub position: AnchorPosition,
    /// In metres.
    pub radius: Real,
}

impl AnchorConfig {
    /// The distance from the anchor to a position, in metres.
    #[verifier::allow_in_spec]
    pub fn distance(&self, latitude: Real, longitude: Real) -> (r: Expr)
        returns
            haversine_meters(
                self.position.latitude,
                self.position.longitude,
                latitude,
                longitude,
            ),
    {
        haversine_meters(self.position.latitude, self.position.longitude, latitude, longitude)
    }

    /// The distances to some positions.
    pub open spec fn distances_to(self, positions: Seq<(Real, Real)>) -> Seq<Expr> {
        positions.map_values(|p: (Real, Real)| self.distance(p.0, p.1))
    }

    /// The distances to work out for a delta, in order.
    pub fn distances(&self, delta: &Incoming) -> (out: Vec<Expr>)
        ensures
            out@ == self.distances_to(positions_in(all_values(update_views(delta.updates@)))),
    {
        let positions = positions(delta);
        let mut out: Vec<Expr> = Vec::new();
        let mut i: usize = 0;
        while i < positions.len()
            invariant
                i <= positions@.len(),
                out@.len() == i,
                forall|k: int|
                    0 <= k < i ==> out@[k] == #[trigger] self.distance(
                        positions@[k].0,
                        positions@[k].1,
                    ),
            decreases positions@.len() - i,
        {
            let (latitude, longitude) = positions[i];
            out.push(self.distance(latitude, longitude));
            i += 1;
        }
        assert(out@ =~= self.distances_to(positions@));
        out
    }
}

/// The complete positions among some values, in order.
pub open spec fn positions_in(values: Seq<ReadingView>) -> Seq<(Real, Real)>
    decreases values.len(),
{
    if values.len() == 0 {
        Seq::empty()
    } else {
        let rest = positions_in(values.drop_last());
        let r = values.last();
        if r.path == "navigation.position"@ {
            match position_in(r.value) {
                Some(p) => rest.push(p),
                None => rest,
            }
        } else {
            rest
        }
    }
}

/// The complete positions of a delta, in order.
pub fn positions(delta: &Incoming) -> (out: Vec<(Real, Real)>)
    ensures
        out@ == positions_in(all_values(update_views(delta.updates@))),
{
    let ghost updates = update_views(delta.updates@);
    let mut out: Vec<(Real, Real)> = Vec::new();
    let mut i: usize = 0;
    assert(updates.take(0) =~= Seq::empty());
    assert(out@ =~= Seq::empty());
    while i < delta.updates.len()
        invariant
            i <= delta.updates@.len(),
            updates == update_views(delta.updates@),
            out@ == positions_in(all_values(updates.take(i as int))),
        decreases delta.updates@.len() - i,
    {
        let update = &delta.updates[i];
        let ghost values = readings(update.values@);
        let ghost done = all_values(updates.take(i as int));
        let mut j: usize = 0;
        assert(done + values.take(0) =~= done);
        while j < update.values.len()
            invariant
                j <= update.values@.len(),
                values == readings(update.values@),
                out@ == positions_in(done + values.take(j as int)),
            decreases update.values@.len() - j,
        {
            proof {
                let next = done + values.take(j + 1);
                assert(next.drop_last() =~= done + values.take(j as int));
                assert(next.last() == update.values@[j as int]@);
            }
            let r = &update.values[j];
            if equal(r.path.as_str(), "navigation.position") {
                match position_of(&r.value) {
                    Some(p) => {
                        out.push(p);
                    },
                    None => {},
                }
            }
            j += 1;
        }
        proof {
            assert(values.take(j as int) =~= values);
            let next = updates.take(i + 1);
            assert(next.drop_last() =~= updates.take(i as int));
            assert(next.last() == update@);
        }
        i += 1;
    }
    assert(updates.take(i as int) =~= updates);
    out
}

/// What the watch makes of a distance.
#[derive(Debug, Clone, Copy, PartialEq, Eq, Structural)]
pub enum Watch {
    /// The vessel has left the circle.
    Left,
    /// The vessel is back in the circle.
    Returned,
    /// Nothing has changed.
    Steady,
}

/// A distance lies outside of the circle.
pub open spec fn outside(distance: Real, radius: Real) -> bool {
    radius.lt(distance)
}

/// What the watch makes of a distance.
pub open spec fn crossing(alarming: bool, distance: Real, radius: Real) -> Watch {
    if outside(distance, radius) && !alarming {
        Watch::Left
    } else if !outside(distance, radius) && alarming {
        Watch::Returned
    } else {
        Watch::Steady
    }
}

/// The state of the alarm.
#[derive(Debug, Clone, Copy, PartialEq, Eq, Structural)]
pub struct AnchorWatch {
    pub alarming: bool,
}

impl AnchorWatch {
    /// A watch without an alarm.
    #[verifier::allow_in_spec]
    pub fn new() -> (r: Self)
        returns
            (AnchorWatch { alarming: false }),
    {
        AnchorWatch { alarming: false }
    }

    /// Compares a distance with the radius; the alarm changes where the vessel crosses the circle.
    pub fn check(&mut self, distance: Real, radius: Real) -> (r: Watch)
        ensures
            r == crossing(old(self).alarming, distance, radius),
            final(self).alarming == outside(distance, radius),
    {
        let is_outside = radius.less_than(distance);
        let was_alarming = self.alarming;
        self.alarming = is_outside;
        if is_outside && !was_alarming {
            Watch::Left
        } else if !is_outside && was_alarming {
            Watch::Returned
        } else {
            Watch::Steady
        }
    }
}

/// The message of a notification; the numbers are whole metres in decimal notation.
pub open spec fn message_of(alarming: bool, distance: Seq<char>, radius: Seq<char>) -> Seq<char> {
    if alarming {
        "Anchor alarm! Vessel is "@ + distance + "m from anchor (radius: "@ + radius + "m)"@
    } else {
        "Back within anchor radius ("@ + distance + "m, radius: "@ + radius + "m)"@
    }
}

/// The delta that raises or clears the alarm.
pub open spec fn anchor_delta(alarming: bool, distance: Seq<char>, radius: Seq<char>) -> DeltaView {
    let value = if alarming {
        notification_view(
            NotificationState::Alarm,
            seq![NotificationMethod::Visual, NotificationMethod::Sound],
            message_of(alarming, distance, radius),
        )
    } else {
        notification_view(
            NotificationState::Normal,
            Seq::empty(),
            message_of(alarming, distance, radius),
        )
    };
    self_delta_view(
        plugin_source("anchor-alarm"@),
        one_entry("notifications.navigation.anchor"@, value),
    )
}

/// The delta that follows from a crossing: an alarm as the vessel leaves the circle, the all-clear
/// as it returns, and none otherwise.
pub open spec fn watch_delta(watch: Watch, distance: Seq<char>, radius: Seq<char>) -> Option<
    DeltaView,
> {
    match watch {
        Watch::Left => Some(anchor_delta(true, distance, radius)),
        Watch::Returned => Some(anchor_delta(false, distance, radius)),
        Watch::Steady => None,
    }
}

fn anchor_message(alarming: bool, distance: &str, radius: &str) -> (r: String)
    ensures
        r@ == message_of(alarming, distance@, radius@),
{
    if alarming {
        let mut s = join("Anchor alarm! Vessel is ", distance);
        s.append("m from anchor (radius: ");
        s.append(radius);
        s.append("m)");
        s
    } else {
        let mut s = join("Back within anchor radius (", distance);
        s.append("m, radius: ");
        s.append(radius);
        s.append("m)");
        s
    }
}

/// The notification that follows from a crossing. `distance` and `radius` are whole metres in
/// decimal notation.
pub fn emit_notification(watch: Watch, distance: &str, radius: &str) -> (r: Option<Delta>)
    ensures
        crate::signalk::opt_delta(r) == watch_delta(watch, distance@, radius@),
{
    let alarming = match watch {
        Watch::Left => true,
        Watch::Returned => false,
        Watch::Steady => {
            return None;
        },
    };
    let message = anchor_message(alarming, distance, radius);
    let mut methods: Vec<NotificationMethod> = Vec::new();
    let state = if alarming {
        methods.push(NotificationMethod::Visual);
        methods.push(NotificationMethod::Sound);
        assert(methods@ =~= seq![NotificationMethod::Visual, NotificationMethod::Sound]);
        NotificationState::Alarm
    } else {
        assert(methods@ =~= Seq::empty());
        NotificationState::Normal
    };
    let mut out = no_values();
    push(
        &mut out,
        "notifications.navigation.anchor",
        notification(state, &methods, message.as_str()),
    );
    Some(Delta::self_vessel(Source::plugin("anchor-alarm"), out))
}

/// The status to report while the anchor is watched. The numbers are in decimal notation.
pub fn status(radius: &str, latitude: &str, longitude: &str) -> (r: String)
    ensures
        r@ == "Monitoring: radius "@ + radius@ + "m at ("@ + latitude@ + ", "@ + longitude@ + ")"@,
{
    let mut s = join("Monitoring: radius ", radius);
    s.append("m at (");
    s.append(latitude);
    s.append(", ");
    s.append(longitude);
    s.append(")");
    s
}

/// The alarm state after some distances.
pub open spec fn alarming_after(alarming: bool, distances: Seq<Real>, radius: Real) -> bool {
    if distances.len() == 0 {
        alarming
    } else {
        outside(distances.last(), radius)
    }
}

/// What the watch makes of some distances, one after the other.
pub open spec fn crossings(alarming: bool, distances: Seq<Real>, radius: Real) -> Seq<Watch>
    decreases distances.len(),
{
    if distances.len() == 0 {
        Seq::empty()
    } else {
        let rest = distances.drop_last();
        crossings(alarming, rest, radius).push(
            crossing(alarming_after(alarming, rest, radius), distances.last(), radius),
        )
    }
}

/// Checks some distances, one after the other.
pub fn check_all(watch: &mut AnchorWatch, distances: &Vec<Real>, radius: Real) -> (out: Vec<Watch>)
    ensures
        out@ == crossings(old(watch).alarming, distances@, radius),
        final(watch).alarming == alarming_after(old(watch).alarming, distances@, radius),
{
    let ghost start = watch.alarming;
    let mut out: Vec<Watch> = Vec::new();
    let mut i: usize = 0;
    assert(distances@.take(0) =~= Seq::empty());
    assert(out@ =~= Seq::empty());
    while i < distances.len()
        invariant
            i <= distances@.len(),
            out@ == crossings(start, distances@.take(i as int), radius),
            watch.alarming == alarming_after(start, distances@.take(i as int), radius),
        decreases distances@.len() - i,
    {
        proof {
            let next = distances@.take(i + 1);
            assert(next.drop_last() =~= distances@.take(i as int));
            assert(next.last() == distances@[i as int]);
        }
        out.push(watch.check(distances[i], radius));
        i += 1;
    }
    assert(distances@.take(i as int) =~= distances@);
    out
}

/// While the vessel stays on one side of the circle, nothing is notified after the first check.
pub proof fn same_side_is_quiet(first: Real, second: Real, radius: Real)
    requires
        outside(first, radius) == outside(second, radius),
    ensures
        crossing(outside(first, radius), second, radius) == Watch::Steady,
{
}

/// An alarm is followed by the all-clear before the next alarm, however far apart they are: what
/// is notified goes back and forth.
pub proof fn alarms_alternate(alarming: bool, distances: Seq<Real>, radius: Real, i: int, j: int)
    requires
        0 <= i < j < distances.len(),
        crossings(alarming, distances, radius)[i] != Watch::Steady,
        crossings(alarming, distances, radius)[j] != Watch::Steady,
        forall|k: int|
            i < k < j ==> #[trigger] crossings(alarming, distances, radius)[k] == Watch::Steady,
    ensures
        crossings(alarming, distances, radius)[i] == Watch::Left <==> crossings(
            alarming,
            distances,
            radius,
        )[j] == Watch::Returned,
{
    crossing_at(alarming, distances, radius, i);
    crossing_at(alarming, distances, radius, j);
    steady_keeps_side(alarming, distances, radius, i, j);
}

/// What the watch makes of a distance depends on the side that the one before it lay on.
pub proof fn crossing_at(alarming: bool, distances: Seq<Real>, radius: Real, i: int)
    requires
        0 <= i < distances.len(),
    ensures
        crossings(alarming, distances, radius).len() == distances.len(),
        crossings(alarming, distances, radius)[i] == crossing(
            if i == 0 {
                alarming
            } else {
                outside(distances[i - 1], radius)
            },
            distances[i],
            radius,
        ),
    decreases distances.len(),
{
    reveal_with_fuel(crossings, 2);
    let rest = distances.drop_last();
    if i < rest.len() {
        crossing_at(alarming, rest, radius, i);
    } else if rest.len() > 0 {
        crossing_at(alarming, rest, radius, 0);
    }
}

proof fn steady_keeps_side(alarming: bool, distances: Seq<Real>, radius: Real, i: int, j: int)
    requires
        0 <= i < j < distances.len(),
        forall|k: int|
            i < k < j ==> #[trigger] crossings(alarming, distances, radius)[k] == Watch::Steady,
    ensures
        outside(distances[j - 1], radius) == outside(distances[i], radius),
    decreases j - i,
{
    if i < j - 1 {
        steady_keeps_side(alarming, distances, radius, i, j - 1);
        crossing_at(alarming, distances, radius, j - 1);
        assert(crossings(alarming, distances, radius)[j - 1] == Watch::Steady);
    }
}

/// A vessel that leaves the circle raises an alarm, seen and heard, which says how far off it is
/// and how large the circle is; one that returns clears it in silence. Both are told of the own
/// vessel by the anchor alarm. Nothing else is told.
pub proof fn crossings_are_told(distance: Seq<char>, radius: Seq<char>)
    ensures
        told(watch_delta(Watch::Left, distance, radius), "notifications.navigation.anchor"@)
            == seq![
            notification_view(
                NotificationState::Alarm,
                seq![NotificationMethod::Visual, NotificationMethod::Sound],
                "Anchor alarm! Vessel is "@ + distance + "m from anchor (radius: "@ + radius
                    + "m)"@,
            ),
        ],
        told(watch_delta(Watch::Returned, distance, radius), "notifications.navigation.anchor"@)
            == seq![
            notification_view(
                NotificationState::Normal,
                Seq::<NotificationMethod>::empty(),
                "Back within anchor radius ("@ + distance + "m, radius: "@ + radius + "m)"@,
            ),
        ],
        watch_delta(Watch::Steady, distance, radius) is None,
        forall|w: Watch|
            #![trigger watch_delta(w, distance, radius)]
            watch_delta(w, distance, radius) matches Some(d) ==> d.context == Some(
                "vessels.self"@,
            ) && d.updates[0].source.label == "anchor-alarm"@,
{
    broadcast use group_paths;

    let left = anchor_delta(true, distance, radius);
    let back = anchor_delta(false, distance, radius);
    one_update_tells_all(left, "notifications.navigation.anchor"@);
    one_update_tells_all(back, "notifications.navigation.anchor"@);
    let l = left.updates[0].values;
    let b = back.updates[0].values;
    assert(l.drop_last() =~= Seq::empty());
    assert(b.drop_last() =~= Seq::empty());
    assert(under(l, "notifications.navigation.anchor"@) =~= seq![l[0].value]);
    assert(under(b, "notifications.navigation.anchor"@) =~= seq![b[0].value]);
}

/// The vessel is off its place as soon as it is farther from the anchor than the radius; it leaves
/// the circle when it was within, and returns to it when it was off.
pub proof fn circle_has_its_radius(watched: bool, distance: Real, radius: Real)
    ensures
        crossing(watched, distance, radius) == Watch::Left <==> (!watched && radius.lt(distance)),
        crossing(watched, distance, radius) == Watch::Returned <==> (watched && !radius.lt(
            distance,
        )),
{
}

/// The positions of a delta are looked at one by one: more values only add positions, a complete
/// own position adds itself, and a value under another path adds nothing.
pub proof fn own_positions_are_watched(
    first: Seq<ReadingView>,
    second: Seq<ReadingView>,
    one: ReadingView,
)
    ensures
        positions_in(first + second) == positions_in(first) + positions_in(second),
        one.path != "navigation.position"@ ==> positions_in(seq![one]) == Seq::<
            (Real, Real),
        >::empty(),
        one.path == "navigation.position"@ ==> positions_in(seq![one]) == (match (
            number_at(one.value, "latitude"@),
            number_at(one.value, "longitude"@),
        ) {
            (Some(latitude), Some(longitude)) => seq![(latitude, longitude)],
            _ => Seq::empty(),
        }),
    decreases second.len(),
{
    assert(seq![one].drop_last() =~= Seq::<ReadingView>::empty());
    assert(positions_in(seq![one].drop_last()) =~= Seq::<(Real, Real)>::empty());
    assert(positions_in(seq![one]) =~= if one.path == "navigation.position"@ {
        match position_in(one.value) {
            Some(p) => seq![p],
            None => Seq::empty(),
        }
    } else {
        Seq::empty()
    });
    if second.len() == 0 {
        assert(first + second =~= first);
        assert(positions_in(first) + positions_in(second) =~= positions_in(first));
    } else {
        own_positions_are_watched(first, second.drop_last(), one);
        assert((first + second).drop_last() =~= first + second.drop_last());
        assert((first + second).last() == second.last());
        assert(positions_in(first + second) =~= positions_in(first) + positions_in(second));
    }
}

/// The distance to a position is that of the great circle from the anchor to it: the earth's
/// radius times twice the angle whose sine has the haversine as its square.
pub proof fn distance_is_along_the_great_circle(
    ev: spec_fn(Expr) -> real,
    anchor: AnchorConfig,
    positions: Seq<(Real, Real)>,
    i: int,
)
    requires
        ideal(ev),
        0 <= i < positions.len(),
        0real <= haversine_value(
            ev,
            (anchor.position.latitude, anchor.position.longitude),
            positions[i],
        ),
    ensures
        exists|half: Expr| #[trigger]
            ev(half.asin()) * 2real * ev(lit(EARTH_RADIUS_M)) == ev(
                anchor.distances_to(positions)[i],
            ) && ev(half) >= 0real && ev(half) * ev(half) == haversine_value(
                ev,
                (anchor.position.latitude, anchor.position.longitude),
                positions[i],
            ),
{
    let here = (anchor.position.latitude, anchor.position.longitude);
    let half = arc_has_its_haversine(ev, here, positions[i]);
    let a = ev(half.asin());
    let r = ev(lit(EARTH_RADIUS_M));
    assert(a * 2real * r == r * (2real * a)) by (nonlinear_arith);
    assert(anchor.distances_to(positions)[i] == haversine_meters(
        here.0,
        here.1,
        positions[i].0,
        positions[i].1,
    ));
}

} // verus!
