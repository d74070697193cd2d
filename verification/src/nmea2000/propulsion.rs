//! Engine, rudder and battery messages.
use crate::expr::{lit, num, Expr};
use crate::nmea2000::{self_delta, self_delta_of, N2kSource};
use crate::number::Real;
use crate::signalk::{no_values, opt_delta, push_opt, with_opt, Delta, Entry};
use crate::text::{decimal, digits, join};
use crate::units::{double, number, number_view, SIXTY, TAU};
use vstd::prelude::*;

verus! {

/// The path of an engine; the first one where no instance is given.
pub open spec fn engine_path(instance: Option<u64>) -> Seq<char> {
    match instance {
        Some(n) => "propulsion."@ + digits(n as nat),
        None => "propulsion.0"@,
    }
}

/// The path of an engine; the first one where no instance is given.
pub fn engine_prefix(instance_raw: Option<u64>) -> (r: String)
    ensures
        r@ == engine_path(instance_raw),
{
    match instance_raw {
        Some(n) => join("propulsion.", decimal(n).as_str()),
        None => "propulsion.0".to_string(),
    }
}

/// Rudder (127245).
#[derive(Debug, Clone, Copy, PartialEq, Eq, Structural)]
pub struct Rudder {
    /// Radians.
    pub position: Option<Real>,
}

pub open spec fn rudder_entries(m: Rudder) -> Seq<Entry> {
    let s = Seq::<Entry>::empty();
    with_opt(s, "steering.rudderAngle"@, number_view(double(m.position)))
}

/// Rudder angle.
pub fn from_rudder(m: &Rudder, source: &N2kSource<'_>) -> (r: Option<Delta>)
    ensures
        opt_delta(r) == self_delta_of(rudder_entries(*m), *source),
{
    let mut values = no_values();
    push_opt(&mut values, "steering.rudderAngle", number(double(m.position)));
    self_delta(values, source)
}

/// Fast engine parameters (127488).
#[derive(Debug, Clone, Copy, PartialEq, Eq, Structural)]
pub struct EngineParametersRapidUpdate {
    pub instance: Option<u64>,
    /// Revolutions per minute.
    pub speed: Option<Real>,
}

/// Revolutions per minute, in radians per second.
#[verifier::allow_in_spec]
pub fn angular_speed(rpm: Option<Real>) -> (r: Option<Expr>)
    returns
        (match rpm {
            Some(x) => Some(num(x).times(lit(TAU)).over(lit(SIXTY))),
            None => None,
        }),
{
    match rpm {
        Some(x) => Some(num(x).times(lit(TAU)).over(lit(SIXTY))),
        None => None,
    }
}

pub open spec fn engine_rapid_entries(m: EngineParametersRapidUpdate) -> Seq<Entry> {
    let prefix = engine_path(m.instance);
    let s = Seq::<Entry>::empty();
    with_opt(s, prefix + ".revolutions"@, number_view(angular_speed(m.speed)))
}

/// Engine speed.
pub fn from_engine_rapid(
    m: &EngineParametersRapidUpdate,
    source: &N2kSource<'_>,
) -> (r: Option<Delta>)
    ensures
        opt_delta(r) == self_delta_of(engine_rapid_entries(*m), *source),
{
    let mut values = no_values();
    let prefix = engine_prefix(m.instance);
    push_opt(
        &mut values,
        join(prefix.as_str(), ".revolutions").as_str(),
        number(angular_speed(m.speed)),
    );
    self_delta(values, source)
}

/// Slow engine parameters (127489).
#[derive(Debug, Clone, Copy, PartialEq, Eq, Structural)]
pub struct EngineParametersDynamic {
    pub instance: Option<u64>,
    /// Pascal.
    pub oil_pressure: Option<Real>,
    /// Kelvin, of the coolant.
    pub temperature: Option<Real>,
    /// Kelvin.
    pub oil_temperature: Option<Real>,
    /// Volt.
    pub alternator_potential: Option<Real>,
}

pub open spec fn engine_dynamic_entries(m: EngineParametersDynamic) -> Seq<Entry> {
    let prefix = engine_path(m.instance);
    let s = Seq::<Entry>::empty();
    let s = with_opt(s, prefix + ".oilPressure"@, number_view(double(m.oil_pressure)));
    let s = with_opt(s, prefix + ".coolantTemperature"@, number_view(double(m.temperature)));
    let s = with_opt(s, prefix + ".oilTemperature"@, number_view(double(m.oil_temperature)));
    with_opt(s, prefix + ".alternatorVoltage"@, number_view(double(m.alternator_potential)))
}

/// Pressure, temperatures and voltage of an engine.
pub fn from_engine_dynamic(
    m: &EngineParametersDynamic,
    source: &N2kSource<'_>,
) -> (r: Option<Delta>)
    ensures
        opt_delta(r) == self_delta_of(engine_dynamic_entries(*m), *source),
{
    let mut values = no_values();
    let prefix = engine_prefix(m.instance);
    push_opt(
        &mut values,
        join(prefix.as_str(), ".oilPressure").as_str(),
        number(double(m.oil_pressure)),
    );
    push_opt(
        &mut values,
        join(prefix.as_str(), ".coolantTemperature").as_str(),
        number(double(m.temperature)),
    );
    push_opt(
        &mut values,
        join(prefix.as_str(), ".oilTemperature").as_str(),
        number(double(m.oil_temperature)),
    );
    push_opt(
        &mut values,
        join(prefix.as_str(), ".alternatorVoltage").as_str(),
        number(double(m.alternator_potential)),
    );
    self_delta(values, source)
}

/// Battery (127508).
#[derive(Debug, Clone, Copy, PartialEq, Eq, Structural)]
pub struct BatteryStatus {
    pub instance: Option<u64>,
    /// Volt.
    pub voltage: Option<Real>,
    /// Ampere.
    pub current: Option<Real>,
    /// Kelvin.
    pub temperature: Option<Real>,
}

/// The path of a battery; the first one where no instance is given.
pub open spec fn battery_path(instance: Option<u64>) -> Seq<char> {
    "electrical.batteries."@ + digits(
        match instance {
            Some(n) => n as nat,
            None => 0,
        },
    )
}

fn battery_prefix(instance: Option<u64>) -> (r: String)
    ensures
        r@ == battery_path(instance),
{
    let n: u64 = match instance {
        Some(n) => n,
        None => 0,
    };
    join("electrical.batteries.", decimal(n).as_str())
}

pub open spec fn battery_status_entries(m: BatteryStatus) -> Seq<Entry> {
    let prefix = battery_path(m.instance);
    let s = Seq::<Entry>::empty();
    let s = with_opt(s, prefix + ".voltage"@, number_view(double(m.voltage)));
    let s = with_opt(s, prefix + ".current"@, number_view(double(m.current)));
    with_opt(s, prefix + ".temperature"@, number_view(double(m.temperature)))
}

/// Voltage, current and temperature of a battery.
pub fn from_battery_status(m: &BatteryStatus, source: &N2kSource<'_>) -> (r: Option<Delta>)
    ensures
        opt_delta(r) == self_delta_of(battery_status_entries(*m), *source),
{
    let mut values = no_values();
    let prefix = battery_prefix(m.instance);
    push_opt(&mut values, join(prefix.as_str(), ".voltage").as_str(), number(double(m.voltage)));
    push_opt(&mut values, join(prefix.as_str(), ".current").as_str(), number(double(m.current)));
    push_opt(
        &mut values,
        join(prefix.as_str(), ".temperature").as_str(),
        number(double(m.temperature)),
    );
    self_delta(values, source)
}

} // verus!
