//! Simulated data as Signal K deltas.
use super::{PropulsionValues, SimulatedValues};
use crate::expr::{lit, num};
use crate::number::Real;
use crate::signalk::{
    entries, field_views, no_values, object, plugin_source, position, position_view, push,
    push_field, self_delta_view, text, text_view, with, Delta, DeltaView, Entry, Field, FieldView,
    PathValue, Source, Value, ValueView,
};
use crate::units::ZERO;
use vstd::prelude::*;
use vstd::string::*;

verus! {

/// A number, as a value.
pub open spec fn reading(r: Real) -> ValueView {
    ValueView::Number(num(r))
}

/// The attitude of a vessel that does not yaw.
pub open spec fn attitude_view(roll: Real, pitch: Real) -> ValueView {
    ValueView::Object(
        seq![
            FieldView { key: "roll"@, value: reading(roll) },
            FieldView { key: "pitch"@, value: reading(pitch) },
            FieldView { key: "yaw"@, value: ValueView::Number(lit(ZERO)) },
        ],
    )
}

/// The attitude of a vessel that does not yaw.
pub fn attitude(roll: Real, pitch: Real) -> (v: Value)
    ensures
        v@ == attitude_view(roll, pitch),
{
    let mut fields: Vec<Field> = Vec::new();
    assert(field_views(fields@) =~= Seq::empty());
    push_field(&mut fields, "roll", Value::Number(num(roll)));
    push_field(&mut fields, "pitch", Value::Number(num(pitch)));
    push_field(&mut fields, "yaw", Value::Number(lit(ZERO)));
    let v = object(fields);
    assert(v@->Object_0 =~= attitude_view(roll, pitch)->Object_0);
    v
}

/// The navigation values.
pub open spec fn navigation_entries(values: SimulatedValues, datetime: Seq<char>) -> Seq<Entry> {
    let l0 = with(
        Seq::empty(),
        "navigation.position"@,
        position_view(num(values.latitude), num(values.longitude)),
    );
    let l1 = with(l0, "navigation.speedOverGround"@, reading(values.sog_mps));
    let l2 = with(l1, "navigation.courseOverGroundTrue"@, reading(values.cog_rad));
    let l3 = with(l2, "navigation.headingMagnetic"@, reading(values.heading_magnetic_rad));
    let l4 = with(l3, "navigation.magneticVariation"@, reading(values.magnetic_variation_rad));
    let l5 = with(l4, "navigation.speedThroughWater"@, reading(values.stw_mps));
    let l6 = with(l5, "navigation.attitude"@, attitude_view(values.roll_rad, values.pitch_rad));
    with(l6, "navigation.datetime"@, text_view(datetime))
}

/// The environment values, behind other ones.
pub open spec fn with_environment(list: Seq<Entry>, values: SimulatedValues) -> Seq<Entry> {
    let l0 = list;
    let l1 = with(l0, "environment.wind.angleApparent"@, reading(values.wind_angle_apparent_rad));
    let l2 = with(l1, "environment.wind.speedApparent"@, reading(values.wind_speed_apparent_mps));
    let l3 = with(
        l2,
        "environment.depth.belowTransducer"@,
        reading(values.depth_below_transducer_m),
    );
    let l4 = with(
        l3,
        "environment.depth.surfaceToTransducer"@,
        reading(values.surface_to_transducer_m),
    );
    let l5 = with(l4, "environment.water.temperature"@, reading(values.water_temperature_k));
    let l6 = with(l5, "environment.outside.temperature"@, reading(values.air_temperature_k));
    let l7 = with(l6, "environment.outside.pressure"@, reading(values.pressure_pa));
    let l8 = with(l7, "environment.outside.humidity"@, reading(values.humidity_ratio));
    l8
}

/// The engine values, behind other ones.
pub open spec fn with_propulsion(list: Seq<Entry>, engine: PropulsionValues) -> Seq<Entry> {
    let l0 = list;
    let l1 = with(l0, "propulsion.main.revolutions"@, reading(engine.revolutions_hz));
    let l2 = with(l1, "propulsion.main.oilTemperature"@, reading(engine.oil_temperature_k));
    let l3 = with(l2, "propulsion.main.coolantTemperature"@, reading(engine.coolant_temperature_k));
    let l4 = with(l3, "propulsion.main.fuel.rate"@, reading(engine.fuel_rate_m3s));
    let l5 = with(l4, "electrical.batteries.0.voltage"@, reading(engine.battery_voltage));
    let l6 = with(l5, "electrical.batteries.0.current"@, reading(engine.battery_current));
    l6
}

/// The tank values, behind other ones.
pub open spec fn with_tanks(list: Seq<Entry>, values: SimulatedValues) -> Seq<Entry> {
    let l0 = list;
    let l1 = with(l0, "tanks.fuel.0.currentLevel"@, reading(values.fuel_tank_level));
    let l2 = with(l1, "tanks.fuel.0.capacity"@, reading(values.fuel_tank_capacity_m3));
    let l3 = with(l2, "tanks.freshWater.0.currentLevel"@, reading(values.fresh_water_level));
    let l4 = with(l3, "tanks.freshWater.0.capacity"@, reading(values.fresh_water_capacity_m3));
    l4
}

/// All values of a step: navigation, the environment if it is wanted, the engine if there is one,
/// and the tanks.
pub open spec fn step_entries(
    values: SimulatedValues,
    enable_environment: bool,
    datetime: Seq<char>,
) -> Seq<Entry> {
    let navigation = navigation_entries(values, datetime);
    let environment = if enable_environment {
        with_environment(navigation, values)
    } else {
        navigation
    };
    let engine = match values.propulsion {
        Some(p) => with_propulsion(environment, p),
        None => environment,
    };
    with_tanks(engine, values)
}

/// The delta of a step.
pub open spec fn step_delta(
    values: SimulatedValues,
    enable_environment: bool,
    datetime: Seq<char>,
) -> DeltaView {
    self_delta_view(
        plugin_source("sensor-data-simulator"@),
        step_entries(values, enable_environment, datetime),
    )
}

fn push_navigation(out: &mut Vec<PathValue>, values: &SimulatedValues, datetime: &str)
    requires
        entries(old(out)@) == Seq::<Entry>::empty(),
    ensures
        entries(final(out)@) == navigation_entries(*values, datetime@),
{
    push(
        out,
        "navigation.position",
        position(num(values.latitude), num(values.longitude)),
    );
    push(out, "navigation.speedOverGround", Value::Number(num(values.sog_mps)));
    push(out, "navigation.courseOverGroundTrue", Value::Number(num(values.cog_rad)));
    push(out, "navigation.headingMagnetic", Value::Number(num(values.heading_magnetic_rad)));
    push(out, "navigation.magneticVariation", Value::Number(num(values.magnetic_variation_rad)));
    push(out, "navigation.speedThroughWater", Value::Number(num(values.stw_mps)));
    push(out, "navigation.attitude", attitude(values.roll_rad, values.pitch_rad));
    push(out, "navigation.datetime", text(datetime));
}

fn push_environment(out: &mut Vec<PathValue>, values: &SimulatedValues)
    ensures
        entries(final(out)@) == with_environment(entries(old(out)@), *values),
{
    push(out, "environment.wind.angleApparent", Value::Number(num(values.wind_angle_apparent_rad)));
    push(out, "environment.wind.speedApparent", Value::Number(num(values.wind_speed_apparent_mps)));
    push(
        out,
        "environment.depth.belowTransducer",
        Value::Number(num(values.depth_below_transducer_m)),
    );
    push(
        out,
        "environment.depth.surfaceToTransducer",
        Value::Number(num(values.surface_to_transducer_m)),
    );
    push(out, "environment.water.temperature", Value::Number(num(values.water_temperature_k)));
    push(out, "environment.outside.temperature", Value::Number(num(values.air_temperature_k)));
    push(out, "environment.outside.pressure", Value::Number(num(values.pressure_pa)));
    push(out, "environment.outside.humidity", Value::Number(num(values.humidity_ratio)));
}

fn push_propulsion(out: &mut Vec<PathValue>, engine: PropulsionValues)
    ensures
        entries(final(out)@) == with_propulsion(entries(old(out)@), engine),
{
    push(out, "propulsion.main.revolutions", Value::Number(num(engine.revolutions_hz)));
    push(out, "propulsion.main.oilTemperature", Value::Number(num(engine.oil_temperature_k)));
    push(
        out,
        "propulsion.main.coolantTemperature",
        Value::Number(num(engine.coolant_temperature_k)),
    );
    push(out, "propulsion.main.fuel.rate", Value::Number(num(engine.fuel_rate_m3s)));
    push(out, "electrical.batteries.0.voltage", Value::Number(num(engine.battery_voltage)));
    push(out, "electrical.batteries.0.current", Value::Number(num(engine.battery_current)));
}

fn push_tanks(out: &mut Vec<PathValue>, values: &SimulatedValues)
    ensures
        entries(final(out)@) == with_tanks(entries(old(out)@), *values),
{
    push(out, "tanks.fuel.0.currentLevel", Value::Number(num(values.fuel_tank_level)));
    push(out, "tanks.fuel.0.capacity", Value::Number(num(values.fuel_tank_capacity_m3)));
    push(out, "tanks.freshWater.0.currentLevel", Value::Number(num(values.fresh_water_level)));
    push(out, "tanks.freshWater.0.capacity", Value::Number(num(values.fresh_water_capacity_m3)));
}

/// The delta of a step; `datetime` is the current UTC time in RFC 3339 form.
pub fn build_delta(values: &SimulatedValues, enable_environment: bool, datetime: &str) -> (r: Delta)
    ensures
        r@ == step_delta(*values, enable_environment, datetime@),
{
    let mut out = no_values();
    push_navigation(&mut out, values, datetime);
    if enable_environment {
        push_environment(&mut out, values);
    }
    match values.propulsion {
        Some(p) => push_propulsion(&mut out, p),
        None => {},
    }
    push_tanks(&mut out, values);
    Delta::self_vessel(Source::plugin("sensor-data-simulator"), out)
}

/// A step has twelve values, eight more with the environment and six more with an engine.
pub proof fn step_value_count(
    values: SimulatedValues,
    enable_environment: bool,
    datetime: Seq<char>,
)
    ensures
        step_entries(values, enable_environment, datetime).len() == 12 + (
        if enable_environment {
            8int
        } else {
            0
        }) + (if values.propulsion is Some {
            6int
        } else {
            0
        }),
{
}

} // verus!
