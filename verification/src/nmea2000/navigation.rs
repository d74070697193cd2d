//! Navigation messages.
use crate::clock::{seconds_view, timestamp_text};
use crate::expr::{num, Expr};
use crate::nmea2000::{self_delta, self_delta_of, N2kSource};
use crate::number::Real;
use crate::sentences::depth::{depth_entries, from_depth};
use crate::sentences::position::{place, place_view, push_time, time_entries};
use crate::signalk::{
    no_values, opt_delta, position_3d, position_3d_view, push, push_opt, with_opt,
    Delta, Entry, ValueView,
};
use crate::units::{double, number, number_view};
use vstd::prelude::*;

verus! {

/// What a direction is measured from.
#[derive(Debug, Clone, Copy, PartialEq, Eq, Structural)]
pub enum DirectionReference {
    True,
    Magnetic,
    Other,
}

/// A direction is magnetic; without a reference it is true.
#[verifier::allow_in_spec]
pub fn is_magnetic(reference: Option<DirectionReference>) -> (r: bool)
    returns
        reference == Some(DirectionReference::Magnetic),
{
    match reference {
        Some(DirectionReference::Magnetic) => true,
        _ => false,
    }
}

/// The path of a heading.
pub open spec fn heading_path(reference: Option<DirectionReference>) -> Seq<char> {
    if is_magnetic(reference) {
        "navigation.headingMagnetic"@
    } else {
        "navigation.headingTrue"@
    }
}

fn path_of_heading(reference: Option<DirectionReference>) -> (r: &'static str)
    ensures
        r@ == heading_path(reference),
{
    if is_magnetic(reference) {
        "navigation.headingMagnetic"
    } else {
        "navigation.headingTrue"
    }
}

/// The path of a course.
pub open spec fn course_path(reference: Option<DirectionReference>) -> Seq<char> {
    if is_magnetic(reference) {
        "navigation.courseOverGroundMagnetic"@
    } else {
        "navigation.courseOverGroundTrue"@
    }
}

fn path_of_course(reference: Option<DirectionReference>) -> (r: &'static str)
    ensures
        r@ == course_path(reference),
{
    if is_magnetic(reference) {
        "navigation.courseOverGroundMagnetic"
    } else {
        "navigation.courseOverGroundTrue"
    }
}

/// Vessel heading (127250).
#[derive(Debug, Clone, Copy, PartialEq, Eq, Structural)]
pub struct VesselHeading {
    /// Radians.
    pub heading: Option<Real>,
    pub reference: Option<DirectionReference>,
    /// Radians.
    pub variation: Option<Real>,
}

pub open spec fn vessel_heading_entries(m: VesselHeading) -> Seq<Entry> {
    let s = Seq::<Entry>::empty();
    let s = with_opt(s, heading_path(m.reference), number_view(double(m.heading)));
    with_opt(s, "navigation.magneticVariation"@, number_view(double(m.variation)))
}

/// Heading and magnetic variation.
pub fn from_vessel_heading(m: &VesselHeading, source: &N2kSource<'_>) -> (r: Option<Delta>)
    ensures
        opt_delta(r) == self_delta_of(vessel_heading_entries(*m), *source),
{
    let mut values = no_values();
    push_opt(&mut values, path_of_heading(m.reference), number(double(m.heading)));
    push_opt(&mut values, "navigation.magneticVariation", number(double(m.variation)));
    self_delta(values, source)
}

/// Speed (128259).
#[derive(Debug, Clone, Copy, PartialEq, Eq, Structural)]
pub struct Speed {
    /// Metres per second.
    pub speed_water_referenced: Option<Real>,
    /// Metres per second.
    pub speed_ground_referenced: Option<Real>,
}

pub open spec fn speed_entries(m: Speed) -> Seq<Entry> {
    let s = Seq::<Entry>::empty();
    let s = with_opt(
        s,
        "navigation.speedThroughWater"@,
        number_view(double(m.speed_water_referenced)),
    );
    with_opt(s, "navigation.speedOverGround"@, number_view(double(m.speed_ground_referenced)))
}

/// Speed through the water and over ground.
pub fn from_speed(m: &Speed, source: &N2kSource<'_>) -> (r: Option<Delta>)
    ensures
        opt_delta(r) == self_delta_of(speed_entries(*m), *source),
{
    let mut values = no_values();
    push_opt(&mut values, "navigation.speedThroughWater", number(double(m.speed_water_referenced)));
    push_opt(&mut values, "navigation.speedOverGround", number(double(m.speed_ground_referenced)));
    self_delta(values, source)
}

/// Water depth (128267).
#[derive(Debug, Clone, Copy, PartialEq, Eq, Structural)]
pub struct WaterDepth {
    /// Metres below the transducer.
    pub depth: Option<Real>,
    /// Metres from the transducer to the surface, or as a negative number to the keel.
    pub offset: Option<Real>,
}

/// Depth below the transducer, and below surface or keel where the offset is known.
pub fn from_water_depth(m: &WaterDepth, source: &N2kSource<'_>) -> (r: Option<Delta>)
    ensures
        opt_delta(r) == self_delta_of(depth_entries(m.depth, m.offset), *source),
{
    self_delta(from_depth(m.depth, m.offset), source)
}

/// Distance log (128275).
#[derive(Debug, Clone, Copy, PartialEq, Eq, Structural)]
pub struct DistanceLog {
    /// Metres.
    pub log: Option<u64>,
    /// Metres.
    pub trip_log: Option<u64>,
}

/// A distance in whole metres.
#[verifier::allow_in_spec]
pub fn metres(distance: Option<u64>) -> (r: Option<Expr>)
    returns
        (match distance {
            Some(n) => Some(Expr::Uint(n)),
            None => None,
        }),
{
    match distance {
        Some(n) => Some(Expr::Uint(n)),
        None => None,
    }
}

pub open spec fn distance_log_entries(m: DistanceLog) -> Seq<Entry> {
    let s = Seq::<Entry>::empty();
    let s = with_opt(s, "navigation.log"@, number_view(metres(m.log)));
    with_opt(s, "navigation.trip.log"@, number_view(metres(m.trip_log)))
}

/// Total and trip distance.
pub fn from_distance_log(m: &DistanceLog, source: &N2kSource<'_>) -> (r: Option<Delta>)
    ensures
        opt_delta(r) == self_delta_of(distance_log_entries(*m), *source),
{
    let mut values = no_values();
    push_opt(&mut values, "navigation.log", number(metres(m.log)));
    push_opt(&mut values, "navigation.trip.log", number(metres(m.trip_log)));
    self_delta(values, source)
}

/// Position (129025).
#[derive(Debug, Clone, Copy, PartialEq, Eq, Structural)]
pub struct PositionRapidUpdate {
    /// Decimal degrees.
    pub latitude: Option<Real>,
    /// Decimal degrees.
    pub longitude: Option<Real>,
}

pub open spec fn position_rapid_entries(m: PositionRapidUpdate) -> Seq<Entry> {
    with_opt(Seq::empty(), "navigation.position"@, place_view(m.latitude, m.longitude))
}

/// Position, where both coordinates are known.
pub fn from_position_rapid(m: &PositionRapidUpdate, source: &N2kSource<'_>) -> (r: Option<Delta>)
    ensures
        opt_delta(r) == self_delta_of(position_rapid_entries(*m), *source),
{
    let mut values = no_values();
    push_opt(&mut values, "navigation.position", place(m.latitude, m.longitude));
    self_delta(values, source)
}

/// Course and speed over ground (129026).
#[derive(Debug, Clone, Copy, PartialEq, Eq, Structural)]
pub struct CogSogRapidUpdate {
    /// Radians.
    pub cog: Option<Real>,
    pub cog_reference: Option<DirectionReference>,
    /// Metres per second.
    pub sog: Option<Real>,
}

pub open spec fn cog_sog_rapid_entries(m: CogSogRapidUpdate) -> Seq<Entry> {
    let s = Seq::<Entry>::empty();
    let s = with_opt(s, course_path(m.cog_reference), number_view(double(m.cog)));
    with_opt(s, "navigation.speedOverGround"@, number_view(double(m.sog)))
}

/// Course and speed over ground.
pub fn from_cog_sog_rapid(m: &CogSogRapidUpdate, source: &N2kSource<'_>) -> (r: Option<Delta>)
    ensures
        opt_delta(r) == self_delta_of(cog_sog_rapid_entries(*m), *source),
{
    let mut values = no_values();
    push_opt(&mut values, path_of_course(m.cog_reference), number(double(m.cog)));
    push_opt(&mut values, "navigation.speedOverGround", number(double(m.sog)));
    self_delta(values, source)
}

/// GNSS position (129029).
#[derive(Debug, Clone, Copy, PartialEq, Eq, Structural)]
pub struct GnssPositionData {
    /// Decimal degrees.
    pub latitude: Option<Real>,
    /// Decimal degrees.
    pub longitude: Option<Real>,
    /// Metres.
    pub altitude: Option<Real>,
}

/// A position with an altitude where one is known.
pub open spec fn gnss_place(m: GnssPositionData) -> Option<ValueView> {
    match (m.latitude, m.longitude) {
        (Some(lat), Some(lon)) => Some(position_3d_view(num(lat), num(lon), double(m.altitude))),
        _ => None,
    }
}

pub open spec fn gnss_position_entries(m: GnssPositionData) -> Seq<Entry> {
    with_opt(Seq::empty(), "navigation.position"@, gnss_place(m))
}

/// Position and altitude.
pub fn from_gnss_position(m: &GnssPositionData, source: &N2kSource<'_>) -> (r: Option<Delta>)
    ensures
        opt_delta(r) == self_delta_of(gnss_position_entries(*m), *source),
{
    let mut values = no_values();
    if let (Some(lat), Some(lon)) = (m.latitude, m.longitude) {
        push(
            &mut values,
            "navigation.position",
            position_3d(num(lat), num(lon), double(m.altitude)),
        );
    }
    self_delta(values, source)
}

/// Time and date (129033).
#[derive(Debug, Clone, Copy, PartialEq, Eq, Structural)]
pub struct TimeDate {
    /// Days since 1970-01-01.
    pub date: Option<u16>,
    /// Whole seconds since midnight.
    pub time: Option<u32>,
}

/// The Unix time of a date and time, in seconds.
#[verifier::allow_in_spec]
pub fn unix_seconds(days: u16, seconds: u32) -> (r: i64)
    returns
        (days * 86400 + seconds) as i64,
{
    days as i64 * 86400 + seconds as i64
}

pub open spec fn time_date_entries(m: TimeDate) -> Seq<Entry> {
    match (m.date, m.time) {
        (Some(days), Some(seconds)) => {
            let total = unix_seconds(days, seconds);
            match seconds_view(total) {
                Some(iso) => time_entries(Seq::empty(), iso, (total * 1000) as i64),
                None => Seq::empty(),
            }
        },
        _ => Seq::empty(),
    }
}

/// The time, which is always UTC.
pub fn from_time_date(m: &TimeDate, source: &N2kSource<'_>) -> (r: Option<Delta>)
    ensures
        opt_delta(r) == self_delta_of(time_date_entries(*m), *source),
{
    let mut values = no_values();
    if let (Some(days), Some(seconds)) = (m.date, m.time) {
        let total: i64 = unix_seconds(days, seconds);
        assert(0 <= total <= 65535 * 86400 + u32::MAX);
        if let Some(iso) = timestamp_text(total, "%Y-%m-%dT%H:%M:%S.000Z") {
            push_time(&mut values, iso.as_str(), total * 1000);
        }
    }
    self_delta(values, source)
}

/// Cross-track error (129283).
#[derive(Debug, Clone, Copy, PartialEq, Eq, Structural)]
pub struct CrossTrackError {
    /// Metres.
    pub xte: Option<Real>,
}

pub open spec fn cross_track_error_entries(m: CrossTrackError) -> Seq<Entry> {
    let s = Seq::<Entry>::empty();
    with_opt(s, "navigation.courseGreatCircle.crossTrackError"@, number_view(double(m.xte)))
}

/// Cross-track error.
pub fn from_cross_track_error(m: &CrossTrackError, source: &N2kSource<'_>) -> (r: Option<Delta>)
    ensures
        opt_delta(r) == self_delta_of(cross_track_error_entries(*m), *source),
{
    let mut values = no_values();
    push_opt(&mut values, "navigation.courseGreatCircle.crossTrackError", number(double(m.xte)));
    self_delta(values, source)
}

/// Rate of turn (127251).
#[derive(Debug, Clone, Copy, PartialEq, Eq, Structural)]
pub struct RateOfTurn {
    /// Radians per second.
    pub rate: Option<Real>,
}

pub open spec fn rate_of_turn_entries(m: RateOfTurn) -> Seq<Entry> {
    let s = Seq::<Entry>::empty();
    with_opt(s, "navigation.rateOfTurn"@, number_view(double(m.rate)))
}

/// Rate of turn.
pub fn from_rate_of_turn(m: &RateOfTurn, source: &N2kSource<'_>) -> (r: Option<Delta>)
    ensures
        opt_delta(r) == self_delta_of(rate_of_turn_entries(*m), *source),
{
    let mut values = no_values();
    push_opt(&mut values, "navigation.rateOfTurn", number(double(m.rate)));
    self_delta(values, source)
}

/// Attitude (127257).
#[derive(Debug, Clone, Copy, PartialEq, Eq, Structural)]
pub struct Attitude {
    /// Radians.
    pub yaw: Option<Real>,
    /// Radians.
    pub pitch: Option<Real>,
    /// Radians.
    pub roll: Option<Real>,
}

pub open spec fn attitude_entries(m: Attitude) -> Seq<Entry> {
    let s = Seq::<Entry>::empty();
    let s = with_opt(s, "navigation.attitude.yaw"@, number_view(double(m.yaw)));
    let s = with_opt(s, "navigation.attitude.pitch"@, number_view(double(m.pitch)));
    with_opt(s, "navigation.attitude.roll"@, number_view(double(m.roll)))
}

/// Yaw, pitch and roll, each for itself.
pub fn from_attitude(m: &Attitude, source: &N2kSource<'_>) -> (r: Option<Delta>)
    ensures
        opt_delta(r) == self_delta_of(attitude_entries(*m), *source),
{
    let mut values = no_values();
    push_opt(&mut values, "navigation.attitude.yaw", number(double(m.yaw)));
    push_opt(&mut values, "navigation.attitude.pitch", number(double(m.pitch)));
    push_opt(&mut values, "navigation.attitude.roll", number(double(m.roll)));
    self_delta(values, source)
}

} // verus!
