//! Environment messages.
use crate::nmea2000::{self_delta, self_delta_of, N2kSource};
use crate::number::Real;
use crate::signalk::{no_values, opt_delta, push_opt, with_opt, Delta, Entry};
use crate::units::{double, number, number_view};
use vstd::prelude::*;

verus! {

/// What the wind is measured against.
#[derive(Debug, Clone, Copy, PartialEq, Eq, Structural)]
pub enum WindReference {
    TrueGroundReferencedToNorth,
    MagneticGroundReferencedToMagneticNorth,
    Apparent,
    TrueBoatReferenced,
    TrueWaterReferenced,
    Other,
}

/// Wind (130306).
#[derive(Debug, Clone, Copy, PartialEq, Eq, Structural)]
pub struct WindData {
    /// Metres per second.
    pub wind_speed: Option<Real>,
    /// Radians.
    pub wind_angle: Option<Real>,
    pub reference: Option<WindReference>,
}

/// The paths of wind speed and angle, where the reference has some.
pub open spec fn wind_paths(reference: Option<WindReference>) -> Option<(Seq<char>, Seq<char>)> {
    match reference {
        Some(WindReference::Apparent) => Some(
            ("environment.wind.speedApparent"@, "environment.wind.angleApparent"@),
        ),
        Some(WindReference::TrueBoatReferenced) | Some(WindReference::TrueWaterReferenced) => Some(
            ("environment.wind.speedTrue"@, "environment.wind.angleTrueWater"@),
        ),
        Some(WindReference::TrueGroundReferencedToNorth) => Some(
            ("environment.wind.speedTrue"@, "environment.wind.angleTrueGround"@),
        ),
        _ => None,
    }
}

fn paths_of_wind(reference: Option<WindReference>) -> (r: Option<(&'static str, &'static str)>)
    ensures
        (match r {
            Some((speed, angle)) => Some((speed@, angle@)),
            None => None,
        }) == wind_paths(reference),
{
    match reference {
        Some(WindReference::Apparent) => Some(
            ("environment.wind.speedApparent", "environment.wind.angleApparent"),
        ),
        Some(WindReference::TrueBoatReferenced) | Some(WindReference::TrueWaterReferenced) => Some(
            ("environment.wind.speedTrue", "environment.wind.angleTrueWater"),
        ),
        Some(WindReference::TrueGroundReferencedToNorth) => Some(
            ("environment.wind.speedTrue", "environment.wind.angleTrueGround"),
        ),
        _ => None,
    }
}

pub open spec fn wind_data_entries(m: WindData) -> Seq<Entry> {
    match wind_paths(m.reference) {
        Some((speed, angle)) => with_opt(
            with_opt(Seq::empty(), speed, number_view(double(m.wind_speed))),
            angle,
            number_view(double(m.wind_angle)),
        ),
        None => Seq::empty(),
    }
}

/// Wind speed and angle.
pub fn from_wind_data(m: &WindData, source: &N2kSource<'_>) -> (r: Option<Delta>)
    ensures
        opt_delta(r) == self_delta_of(wind_data_entries(*m), *source),
{
    let mut values = no_values();
    if let Some((speed, angle)) = paths_of_wind(m.reference) {
        push_opt(&mut values, speed, number(double(m.wind_speed)));
        push_opt(&mut values, angle, number(double(m.wind_angle)));
    }
    self_delta(values, source)
}

/// Where a temperature is measured.
#[derive(Debug, Clone, Copy, PartialEq, Eq, Structural)]
pub enum TemperatureSource {
    SeaTemperature,
    OutsideTemperature,
    InsideTemperature,
    MainCabinTemperature,
    Other,
}

/// Temperature (130312).
#[derive(Debug, Clone, Copy, PartialEq, Eq, Structural)]
pub struct Temperature {
    /// Kelvin.
    pub actual_temperature: Option<Real>,
    pub source: Option<TemperatureSource>,
}

/// The path of a temperature, where its source has one.
pub open spec fn temperature_path(source: Option<TemperatureSource>) -> Option<Seq<char>> {
    match source {
        Some(TemperatureSource::SeaTemperature) => Some("environment.water.temperature"@),
        Some(TemperatureSource::OutsideTemperature) => Some("environment.outside.temperature"@),
        Some(TemperatureSource::InsideTemperature) => Some("environment.inside.temperature"@),
        Some(TemperatureSource::MainCabinTemperature) => Some(
            "environment.inside.mainCabinTemperature"@,
        ),
        _ => None,
    }
}

fn path_of_temperature(source: Option<TemperatureSource>) -> (r: Option<&'static str>)
    ensures
        (match r {
            Some(path) => Some(path@),
            None => None,
        }) == temperature_path(source),
{
    match source {
        Some(TemperatureSource::SeaTemperature) => Some("environment.water.temperature"),
        Some(TemperatureSource::OutsideTemperature) => Some("environment.outside.temperature"),
        Some(TemperatureSource::InsideTemperature) => Some("environment.inside.temperature"),
        Some(TemperatureSource::MainCabinTemperature) => Some(
            "environment.inside.mainCabinTemperature",
        ),
        _ => None,
    }
}

pub open spec fn temperature_entries(m: Temperature) -> Seq<Entry> {
    match temperature_path(m.source) {
        Some(path) => with_opt(Seq::empty(), path, number_view(double(m.actual_temperature))),
        None => Seq::empty(),
    }
}

/// A temperature.
pub fn from_temperature(m: &Temperature, source: &N2kSource<'_>) -> (r: Option<Delta>)
    ensures
        opt_delta(r) == self_delta_of(temperature_entries(*m), *source),
{
    let mut values = no_values();
    if let Some(path) = path_of_temperature(m.source) {
        push_opt(&mut values, path, number(double(m.actual_temperature)));
    }
    self_delta(values, source)
}

} // verus!
