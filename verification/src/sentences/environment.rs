//! Environment sentences: MTW, MDA, VDR, VLW.
use crate::number::Real;
use crate::signalk::{entries, no_values, push_opt, with_opt, Entry, PathValue};
use crate::units::{
    divided, double, first_of, number, number_view, scaled, shifted, single, BAR_TO_PA, DEG_TO_RAD,
    HUNDRED, KELVIN_OFFSET, KNOTS_TO_MS, NM_TO_M,
};
use vstd::prelude::*;

verus! {

/// Mean temperature of water.
#[derive(Debug, Clone, Copy, PartialEq, Eq, Structural)]
pub struct MtwData {
    /// Degrees Celsius.
    pub temperature: Option<Real>,
}

/// What a MTW sentence reports.
pub open spec fn mtw_entries(d: MtwData) -> Seq<Entry> {
    let s = Seq::<Entry>::empty();
    let s = with_opt(
        s,
        "environment.water.temperature"@,
        number_view(shifted(double(d.temperature), KELVIN_OFFSET)),
    );
    s
}

/// MTW: water temperature, in kelvin.
pub fn from_mtw(d: &MtwData) -> (out: Vec<PathValue>)
    ensures
        entries(out@) == mtw_entries(*d),
{
    let mut out = no_values();
    push_opt(
        &mut out,
        "environment.water.temperature",
        number(shifted(double(d.temperature), KELVIN_OFFSET)),
    );
    out
}

/// Meteorological composite.
#[derive(Debug, Clone, Copy, PartialEq, Eq, Structural)]
pub struct MdaData {
    /// Barometric pressure, in bar.
    pub pressure_bar: Option<u32>,
    /// Degrees Celsius.
    pub air_temp_deg: Option<u32>,
    /// Degrees Celsius.
    pub water_temp_deg: Option<u32>,
    /// Per cent.
    pub rel_humidity: Option<u32>,
    /// Degrees Celsius.
    pub dew_point: Option<u32>,
    /// Degrees true.
    pub wind_direction_true: Option<u32>,
    pub wind_speed_knots: Option<u32>,
    pub wind_speed_ms: Option<u32>,
}

/// What a MDA sentence reports.
pub open spec fn mda_entries(d: MdaData) -> Seq<Entry> {
    let s = Seq::<Entry>::empty();
    let s = with_opt(
        s,
        "environment.outside.pressure"@,
        number_view(scaled(single(d.pressure_bar), BAR_TO_PA)),
    );
    let s = with_opt(
        s,
        "environment.outside.temperature"@,
        number_view(shifted(single(d.air_temp_deg), KELVIN_OFFSET)),
    );
    let s = with_opt(
        s,
        "environment.water.temperature"@,
        number_view(shifted(single(d.water_temp_deg), KELVIN_OFFSET)),
    );
    let s = with_opt(
        s,
        "environment.outside.humidity"@,
        number_view(divided(single(d.rel_humidity), HUNDRED)),
    );
    let s = with_opt(
        s,
        "environment.outside.dewPointTemperature"@,
        number_view(shifted(single(d.dew_point), KELVIN_OFFSET)),
    );
    let s = with_opt(
        s,
        "environment.wind.directionTrue"@,
        number_view(scaled(single(d.wind_direction_true), DEG_TO_RAD)),
    );
    let s = with_opt(
        s,
        "environment.wind.speedTrue"@,
        number_view(
            first_of(single(d.wind_speed_ms), scaled(single(d.wind_speed_knots), KNOTS_TO_MS)),
        ),
    );
    s
}

/// MDA: pressure, temperatures, humidity, dew point and true wind, in SI units.
/// The wind speed in metres per second is preferred to the one in knots.
pub fn from_mda(d: &MdaData) -> (out: Vec<PathValue>)
    ensures
        entries(out@) == mda_entries(*d),
{
    let mut out = no_values();
    push_opt(
        &mut out,
        "environment.outside.pressure",
        number(scaled(single(d.pressure_bar), BAR_TO_PA)),
    );
    push_opt(
        &mut out,
        "environment.outside.temperature",
        number(shifted(single(d.air_temp_deg), KELVIN_OFFSET)),
    );
    push_opt(
        &mut out,
        "environment.water.temperature",
        number(shifted(single(d.water_temp_deg), KELVIN_OFFSET)),
    );
    push_opt(
        &mut out,
        "environment.outside.humidity",
        number(divided(single(d.rel_humidity), HUNDRED)),
    );
    push_opt(
        &mut out,
        "environment.outside.dewPointTemperature",
        number(shifted(single(d.dew_point), KELVIN_OFFSET)),
    );
    push_opt(
        &mut out,
        "environment.wind.directionTrue",
        number(scaled(single(d.wind_direction_true), DEG_TO_RAD)),
    );
    push_opt(
        &mut out,
        "environment.wind.speedTrue",
        number(first_of(single(d.wind_speed_ms), scaled(single(d.wind_speed_knots), KNOTS_TO_MS))),
    );
    out
}

/// Set and drift.
#[derive(Debug, Clone, Copy, PartialEq, Eq, Structural)]
pub struct VdrData {
    /// Degrees true.
    pub direction_true: Option<u32>,
    /// Knots.
    pub speed: Option<u32>,
}

/// What a VDR sentence reports.
pub open spec fn vdr_entries(d: VdrData) -> Seq<Entry> {
    let s = Seq::<Entry>::empty();
    let s = with_opt(
        s,
        "environment.current.setTrue"@,
        number_view(scaled(single(d.direction_true), DEG_TO_RAD)),
    );
    let s = with_opt(
        s,
        "environment.current.drift"@,
        number_view(scaled(single(d.speed), KNOTS_TO_MS)),
    );
    s
}

/// VDR: direction and speed of the current, in radians and metres per second.
pub fn from_vdr(d: &VdrData) -> (out: Vec<PathValue>)
    ensures
        entries(out@) == vdr_entries(*d),
{
    let mut out = no_values();
    push_opt(
        &mut out,
        "environment.current.setTrue",
        number(scaled(single(d.direction_true), DEG_TO_RAD)),
    );
    push_opt(&mut out, "environment.current.drift", number(scaled(single(d.speed), KNOTS_TO_MS)));
    out
}

/// Distance travelled through the water.
#[derive(Debug, Clone, Copy, PartialEq, Eq, Structural)]
pub struct VlwData {
    /// Nautical miles.
    pub total_water_distance: Option<u32>,
    /// Nautical miles.
    pub trip_water_distance: Option<u32>,
}

/// What a VLW sentence reports.
pub open spec fn vlw_entries(d: VlwData) -> Seq<Entry> {
    let s = Seq::<Entry>::empty();
    let s = with_opt(
        s,
        "navigation.trip.log"@,
        number_view(scaled(single(d.trip_water_distance), NM_TO_M)),
    );
    let s = with_opt(
        s,
        "navigation.log"@,
        number_view(scaled(single(d.total_water_distance), NM_TO_M)),
    );
    s
}

/// VLW: trip and total log, in metres.
pub fn from_vlw(d: &VlwData) -> (out: Vec<PathValue>)
    ensures
        entries(out@) == vlw_entries(*d),
{
    let mut out = no_values();
    push_opt(
        &mut out,
        "navigation.trip.log",
        number(scaled(single(d.trip_water_distance), NM_TO_M)),
    );
    push_opt(&mut out, "navigation.log", number(scaled(single(d.total_water_distance), NM_TO_M)));
    out
}

} // verus!
