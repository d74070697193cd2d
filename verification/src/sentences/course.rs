//! Course sentences: RMB, BWC, BOD, XTE.
use super::position::{place, place_view};
use crate::number::Real;
use crate::signalk::{entries, no_values, push_opt, with_opt, Entry, PathValue};
use crate::units::{number, number_view, scaled, single, DEG_TO_RAD, NM_TO_M};
use vstd::prelude::*;

verus! {

/// Recommended minimum navigation information.
#[derive(Debug, Clone, Copy, PartialEq, Eq, Structural)]
pub struct RmbData {
    /// Whether the sentence is active.
    pub status: bool,
    /// Nautical miles.
    pub cross_track_error: Option<u32>,
    /// Decimal degrees.
    pub dest_latitude: Option<Real>,
    /// Decimal degrees.
    pub dest_longitude: Option<Real>,
    /// Nautical miles.
    pub range_to_dest: Option<u32>,
    /// Degrees true.
    pub bearing_to_dest: Option<u32>,
}

/// What a RMB sentence reports.
pub open spec fn rmb_entries(d: RmbData) -> Seq<Entry> {
    if !d.status {
        Seq::empty()
    } else {
        let s = Seq::<Entry>::empty();
        let s = with_opt(
            s,
            "navigation.courseGreatCircle.nextPoint.position"@,
            place_view(d.dest_latitude, d.dest_longitude),
        );
        let s = with_opt(
            s,
            "navigation.courseGreatCircle.nextPoint.distance"@,
            number_view(scaled(single(d.range_to_dest), NM_TO_M)),
        );
        let s = with_opt(
            s,
            "navigation.courseGreatCircle.nextPoint.bearingTrue"@,
            number_view(scaled(single(d.bearing_to_dest), DEG_TO_RAD)),
        );
        let s = with_opt(
            s,
            "navigation.courseGreatCircle.crossTrackError"@,
            number_view(scaled(single(d.cross_track_error), NM_TO_M)),
        );
        s
    }
}

/// RMB: position, distance and bearing of the destination and the cross-track
/// error, in metres and radians. A void sentence reports nothing.
pub fn from_rmb(d: &RmbData) -> (out: Vec<PathValue>)
    ensures
        entries(out@) == rmb_entries(*d),
{
    let mut out = no_values();
    if !d.status {
        return out;
    }
    push_opt(
        &mut out,
        "navigation.courseGreatCircle.nextPoint.position",
        place(d.dest_latitude, d.dest_longitude),
    );
    push_opt(
        &mut out,
        "navigation.courseGreatCircle.nextPoint.distance",
        number(scaled(single(d.range_to_dest), NM_TO_M)),
    );
    push_opt(
        &mut out,
        "navigation.courseGreatCircle.nextPoint.bearingTrue",
        number(scaled(single(d.bearing_to_dest), DEG_TO_RAD)),
    );
    push_opt(
        &mut out,
        "navigation.courseGreatCircle.crossTrackError",
        number(scaled(single(d.cross_track_error), NM_TO_M)),
    );
    out
}

/// Bearing and distance to waypoint, great circle.
#[derive(Debug, Clone, Copy, PartialEq, Eq, Structural)]
pub struct BwcData {
    /// Decimal degrees.
    pub latitude: Option<Real>,
    /// Decimal degrees.
    pub longitude: Option<Real>,
    /// Degrees true.
    pub true_bearing: Option<u32>,
    /// Degrees magnetic.
    pub magnetic_bearing: Option<u32>,
    /// Nautical miles.
    pub distance: Option<u32>,
}

/// What a BWC sentence reports.
pub open spec fn bwc_entries(d: BwcData) -> Seq<Entry> {
    let s = Seq::<Entry>::empty();
    let s = with_opt(
        s,
        "navigation.courseGreatCircle.nextPoint.position"@,
        place_view(d.latitude, d.longitude),
    );
    let s = with_opt(
        s,
        "navigation.courseGreatCircle.nextPoint.bearingTrue"@,
        number_view(scaled(single(d.true_bearing), DEG_TO_RAD)),
    );
    let s = with_opt(
        s,
        "navigation.courseGreatCircle.nextPoint.bearingMagnetic"@,
        number_view(scaled(single(d.magnetic_bearing), DEG_TO_RAD)),
    );
    let s = with_opt(
        s,
        "navigation.courseGreatCircle.nextPoint.distance"@,
        number_view(scaled(single(d.distance), NM_TO_M)),
    );
    s
}

/// BWC: position of the next waypoint, bearings and distance to it.
pub fn from_bwc(d: &BwcData) -> (out: Vec<PathValue>)
    ensures
        entries(out@) == bwc_entries(*d),
{
    let mut out = no_values();
    push_opt(
        &mut out,
        "navigation.courseGreatCircle.nextPoint.position",
        place(d.latitude, d.longitude),
    );
    push_opt(
        &mut out,
        "navigation.courseGreatCircle.nextPoint.bearingTrue",
        number(scaled(single(d.true_bearing), DEG_TO_RAD)),
    );
    push_opt(
        &mut out,
        "navigation.courseGreatCircle.nextPoint.bearingMagnetic",
        number(scaled(single(d.magnetic_bearing), DEG_TO_RAD)),
    );
    push_opt(
        &mut out,
        "navigation.courseGreatCircle.nextPoint.distance",
        number(scaled(single(d.distance), NM_TO_M)),
    );
    out
}

/// Bearing, origin to destination.
#[derive(Debug, Clone, Copy, PartialEq, Eq, Structural)]
pub struct BodData {
    /// Degrees true.
    pub bearing_true: Option<u32>,
    /// Degrees magnetic.
    pub bearing_magnetic: Option<u32>,
}

/// What a BOD sentence reports.
pub open spec fn bod_entries(d: BodData) -> Seq<Entry> {
    let s = Seq::<Entry>::empty();
    let s = with_opt(
        s,
        "navigation.courseGreatCircle.bearingTrackTrue"@,
        number_view(scaled(single(d.bearing_true), DEG_TO_RAD)),
    );
    let s = with_opt(
        s,
        "navigation.courseGreatCircle.bearingTrackMagnetic"@,
        number_view(scaled(single(d.bearing_magnetic), DEG_TO_RAD)),
    );
    s
}

/// BOD: bearings from the origin to the destination, in radians.
pub fn from_bod(d: &BodData) -> (out: Vec<PathValue>)
    ensures
        entries(out@) == bod_entries(*d),
{
    let mut out = no_values();
    push_opt(
        &mut out,
        "navigation.courseGreatCircle.bearingTrackTrue",
        number(scaled(single(d.bearing_true), DEG_TO_RAD)),
    );
    push_opt(
        &mut out,
        "navigation.courseGreatCircle.bearingTrackMagnetic",
        number(scaled(single(d.bearing_magnetic), DEG_TO_RAD)),
    );
    out
}

/// Cross-track error, measured.
#[derive(Debug, Clone, Copy, PartialEq, Eq, Structural)]
pub struct XteData {
    /// Nautical miles, positive right of the track.
    pub cross_track_error: Option<u32>,
    /// False on a fault or warning.
    pub status_general: bool,
}

/// What a XTE sentence reports.
pub open spec fn xte_entries(d: XteData) -> Seq<Entry> {
    if !d.status_general {
        Seq::empty()
    } else {
        let s = Seq::<Entry>::empty();
        let s = with_opt(
            s,
            "navigation.courseGreatCircle.crossTrackError"@,
            number_view(scaled(single(d.cross_track_error), NM_TO_M)),
        );
        s
    }
}

/// XTE: signed cross-track error in metres. Nothing on a fault or warning.
pub fn from_xte(d: &XteData) -> (out: Vec<PathValue>)
    ensures
        entries(out@) == xte_entries(*d),
{
    let mut out = no_values();
    if !d.status_general {
        return out;
    }
    push_opt(
        &mut out,
        "navigation.courseGreatCircle.crossTrackError",
        number(scaled(single(d.cross_track_error), NM_TO_M)),
    );
    out
}

} // verus!
