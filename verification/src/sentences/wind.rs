//! Wind sentences: MWV, MWD, VWR, VWT.
use crate::expr::{lit, Expr};
use crate::signalk::{entries, no_values, push_opt, with_opt, Entry, PathValue};
use crate::units::{
    first_of, number, number_view, scaled, single, DEG_TO_RAD, KMH_PER_MS, KNOTS_TO_MS, MPH_TO_MS,
};
use vstd::prelude::*;

verus! {

/// What a wind angle is measured against.
#[derive(Debug, Clone, Copy, PartialEq, Eq, Structural)]
pub enum MwvReference {
    /// Apparent wind, as felt on board.
    Relative,
    /// True wind.
    Theoretical,
}

/// The unit of a wind speed.
#[derive(Debug, Clone, Copy, PartialEq, Eq, Structural)]
pub enum MwvWindSpeedUnits {
    KilometersPerHour,
    MetersPerSecond,
    Knots,
    MilesPerHour,
}

/// Wind speed and angle.
#[derive(Debug, Clone, Copy, PartialEq, Eq, Structural)]
pub struct MwvData {
    /// Degrees from the bow.
    pub wind_direction: Option<u32>,
    pub reference: Option<MwvReference>,
    pub wind_speed: Option<u32>,
    pub wind_speed_units: Option<MwvWindSpeedUnits>,
    pub data_valid: bool,
}

/// A wind speed in metres per second; missing where the speed or its unit is.
#[verifier::allow_in_spec]
pub fn speed_ms(speed: Option<u32>, units: Option<MwvWindSpeedUnits>) -> (r: Option<Expr>)
    returns
        (match (speed, units) {
            (Some(s), Some(MwvWindSpeedUnits::Knots)) => Some(
                Expr::Single(s).times(lit(KNOTS_TO_MS)),
            ),
            (Some(s), Some(MwvWindSpeedUnits::MetersPerSecond)) => Some(Expr::Single(s)),
            (Some(s), Some(MwvWindSpeedUnits::KilometersPerHour)) => Some(
                Expr::Single(s).over(lit(KMH_PER_MS)),
            ),
            (Some(s), Some(MwvWindSpeedUnits::MilesPerHour)) => Some(
                Expr::Single(s).times(lit(MPH_TO_MS)),
            ),
            _ => None,
        }),
{
    match (speed, units) {
        (Some(s), Some(MwvWindSpeedUnits::Knots)) => Some(
            Expr::Single(s).times(lit(KNOTS_TO_MS)),
        ),
        (Some(s), Some(MwvWindSpeedUnits::MetersPerSecond)) => Some(Expr::Single(s)),
        (Some(s), Some(MwvWindSpeedUnits::KilometersPerHour)) => Some(
            Expr::Single(s).over(lit(KMH_PER_MS)),
        ),
        (Some(s), Some(MwvWindSpeedUnits::MilesPerHour)) => Some(
            Expr::Single(s).times(lit(MPH_TO_MS)),
        ),
        _ => None,
    }
}

/// What a MWV sentence reports.
pub open spec fn mwv_entries(d: MwvData) -> Seq<Entry> {
    let angle = number_view(scaled(single(d.wind_direction), DEG_TO_RAD));
    let speed = number_view(speed_ms(d.wind_speed, d.wind_speed_units));
    if !d.data_valid {
        Seq::empty()
    } else {
        match d.reference {
            Some(MwvReference::Relative) => {
                let s = with_opt(Seq::empty(), "environment.wind.angleApparent"@, angle);
                with_opt(s, "environment.wind.speedApparent"@, speed)
            },
            Some(MwvReference::Theoretical) => {
                let s = with_opt(Seq::empty(), "environment.wind.angleTrueWater"@, angle);
                with_opt(s, "environment.wind.speedTrue"@, speed)
            },
            None => Seq::empty(),
        }
    }
}

/// MWV: angle and speed of the apparent or true wind, in radians and metres per
/// second. Nothing is reported of data marked as not valid.
pub fn from_mwv(d: &MwvData) -> (out: Vec<PathValue>)
    ensures
        entries(out@) == mwv_entries(*d),
{
    let mut out = no_values();
    if !d.data_valid {
        return out;
    }
    let angle = number(scaled(single(d.wind_direction), DEG_TO_RAD));
    let speed = number(speed_ms(d.wind_speed, d.wind_speed_units));
    match d.reference {
        Some(MwvReference::Relative) => {
            push_opt(&mut out, "environment.wind.angleApparent", angle);
            push_opt(&mut out, "environment.wind.speedApparent", speed);
        },
        Some(MwvReference::Theoretical) => {
            push_opt(&mut out, "environment.wind.angleTrueWater", angle);
            push_opt(&mut out, "environment.wind.speedTrue", speed);
        },
        None => {},
    }
    out
}

/// Wind direction and speed.
#[derive(Debug, Clone, Copy, PartialEq, Eq, Structural)]
pub struct MwdData {
    /// Degrees true.
    pub wind_direction_true: Option<u32>,
    /// Degrees magnetic.
    pub wind_direction_magnetic: Option<u32>,
    pub wind_speed_knots: Option<u32>,
    pub wind_speed_mps: Option<u32>,
}

/// What a MWD sentence reports.
pub open spec fn mwd_entries(d: MwdData) -> Seq<Entry> {
    let s = Seq::<Entry>::empty();
    let s = with_opt(
        s,
        "environment.wind.directionTrue"@,
        number_view(scaled(single(d.wind_direction_true), DEG_TO_RAD)),
    );
    let s = with_opt(
        s,
        "environment.wind.directionMagnetic"@,
        number_view(scaled(single(d.wind_direction_magnetic), DEG_TO_RAD)),
    );
    let s = with_opt(
        s,
        "environment.wind.speedTrue"@,
        number_view(
            first_of(single(d.wind_speed_mps), scaled(single(d.wind_speed_knots), KNOTS_TO_MS)),
        ),
    );
    s
}

/// MWD: wind directions in radians and true wind speed in metres per second.
/// The speed in metres per second is preferred to the one in knots.
pub fn from_mwd(d: &MwdData) -> (out: Vec<PathValue>)
    ensures
        entries(out@) == mwd_entries(*d),
{
    let mut out = no_values();
    push_opt(
        &mut out,
        "environment.wind.directionTrue",
        number(scaled(single(d.wind_direction_true), DEG_TO_RAD)),
    );
    push_opt(
        &mut out,
        "environment.wind.directionMagnetic",
        number(scaled(single(d.wind_direction_magnetic), DEG_TO_RAD)),
    );
    push_opt(
        &mut out,
        "environment.wind.speedTrue",
        number(first_of(single(d.wind_speed_mps), scaled(single(d.wind_speed_knots), KNOTS_TO_MS))),
    );
    out
}

/// Relative (apparent) wind speed and angle.
#[derive(Debug, Clone, Copy, PartialEq, Eq, Structural)]
pub struct VwrData {
    /// Degrees from the bow, negative to port.
    pub wind_angle: Option<u32>,
    pub speed_knots: Option<u32>,
    pub speed_mps: Option<u32>,
}

/// What a VWR sentence reports.
pub open spec fn vwr_entries(d: VwrData) -> Seq<Entry> {
    let s = Seq::<Entry>::empty();
    let s = with_opt(
        s,
        "environment.wind.angleApparent"@,
        number_view(scaled(single(d.wind_angle), DEG_TO_RAD)),
    );
    let s = with_opt(
        s,
        "environment.wind.speedApparent"@,
        number_view(first_of(single(d.speed_mps), scaled(single(d.speed_knots), KNOTS_TO_MS))),
    );
    s
}

/// VWR: apparent wind angle in radians and speed in metres per second.
/// The speed in metres per second is preferred to the one in knots.
pub fn from_vwr(d: &VwrData) -> (out: Vec<PathValue>)
    ensures
        entries(out@) == vwr_entries(*d),
{
    let mut out = no_values();
    push_opt(
        &mut out,
        "environment.wind.angleApparent",
        number(scaled(single(d.wind_angle), DEG_TO_RAD)),
    );
    push_opt(
        &mut out,
        "environment.wind.speedApparent",
        number(first_of(single(d.speed_mps), scaled(single(d.speed_knots), KNOTS_TO_MS))),
    );
    out
}

/// True wind speed and angle.
#[derive(Debug, Clone, Copy, PartialEq, Eq, Structural)]
pub struct VwtData {
    /// Degrees from the bow, negative to port.
    pub wind_angle: Option<u32>,
    pub speed_knots: Option<u32>,
    pub speed_mps: Option<u32>,
}

/// What a VWT sentence reports.
pub open spec fn vwt_entries(d: VwtData) -> Seq<Entry> {
    let s = Seq::<Entry>::empty();
    let s = with_opt(
        s,
        "environment.wind.angleTrueWater"@,
        number_view(scaled(single(d.wind_angle), DEG_TO_RAD)),
    );
    let s = with_opt(
        s,
        "environment.wind.speedTrue"@,
        number_view(first_of(single(d.speed_mps), scaled(single(d.speed_knots), KNOTS_TO_MS))),
    );
    s
}

/// VWT: true wind angle in radians and speed in metres per second.
/// The speed in metres per second is preferred to the one in knots.
pub fn from_vwt(d: &VwtData) -> (out: Vec<PathValue>)
    ensures
        entries(out@) == vwt_entries(*d),
{
    let mut out = no_values();
    push_opt(
        &mut out,
        "environment.wind.angleTrueWater",
        number(scaled(single(d.wind_angle), DEG_TO_RAD)),
    );
    push_opt(
        &mut out,
        "environment.wind.speedTrue",
        number(first_of(single(d.speed_mps), scaled(single(d.speed_knots), KNOTS_TO_MS))),
    );
    out
}

} // verus!
