//! What the simulator tells, in each of its forms.
use super::direct::step_delta;
use super::nmea0183::{
    coordinate, dbt_pieces, gga_pieces, hdg_pieces, mda_pieces, mtw_pieces, mwv_pieces, rmc_pieces,
    side, step_sentences, vhw_pieces, with_position, with_time, xdr_pieces, Moment,
    HALF_TURN_DEGREES, THOUSAND,
};
use super::nmea2000::step_messages;
use super::SimulatedValues;
use crate::expr::{lit, num, Expr};
use crate::number::Real;
use crate::paths::{group_paths, one_update_tells_all, only, place_of, told};
use crate::pgn::Content;
use crate::signalk::{FieldView, ValueView};
use crate::template::PieceView;
use crate::text::padded;
use crate::units::{
    BAR_TO_PA, FATHOMS_PER_METER, FEET_PER_METER, HUNDRED, KELVIN_OFFSET, KMH_PER_MS, MPS_TO_KNOTS,
    PI, SIXTY, TAU, ZERO,
};
use vstd::prelude::*;

verus! {

// ---------------------------------------------------------------------------
// Deltas
// ---------------------------------------------------------------------------

/// The simulated paths differ.
#[verifier::spinoff_prover]
proof fn simulated_paths_differ()
    ensures
        "electrical.batteries.0.current"@ != "electrical.batteries.0.voltage"@,
        "electrical.batteries.0.current"@ != "environment.depth.belowTransducer"@,
        "electrical.batteries.0.current"@ != "environment.depth.surfaceToTransducer"@,
        "electrical.batteries.0.current"@ != "environment.outside.humidity"@,
        "electrical.batteries.0.current"@ != "environment.outside.pressure"@,
        "electrical.batteries.0.current"@ != "environment.outside.temperature"@,
        "electrical.batteries.0.current"@ != "environment.water.temperature"@,
        "electrical.batteries.0.current"@ != "environment.wind.angleApparent"@,
        "electrical.batteries.0.current"@ != "environment.wind.speedApparent"@,
        "electrical.batteries.0.current"@ != "navigation.attitude"@,
        "electrical.batteries.0.current"@ != "navigation.courseOverGroundTrue"@,
        "electrical.batteries.0.current"@ != "navigation.datetime"@,
        "electrical.batteries.0.current"@ != "navigation.headingMagnetic"@,
        "electrical.batteries.0.current"@ != "navigation.magneticVariation"@,
        "electrical.batteries.0.current"@ != "navigation.position"@,
        "electrical.batteries.0.current"@ != "navigation.speedOverGround"@,
        "electrical.batteries.0.current"@ != "navigation.speedThroughWater"@,
        "electrical.batteries.0.current"@ != "propulsion.main.coolantTemperature"@,
        "electrical.batteries.0.current"@ != "propulsion.main.fuel.rate"@,
        "electrical.batteries.0.current"@ != "propulsion.main.oilTemperature"@,
        "electrical.batteries.0.current"@ != "propulsion.main.revolutions"@,
        "electrical.batteries.0.current"@ != "tanks.freshWater.0.capacity"@,
        "electrical.batteries.0.current"@ != "tanks.freshWater.0.currentLevel"@,
        "electrical.batteries.0.current"@ != "tanks.fuel.0.capacity"@,
        "electrical.batteries.0.current"@ != "tanks.fuel.0.currentLevel"@,
        "electrical.batteries.0.voltage"@ != "environment.depth.belowTransducer"@,
        "electrical.batteries.0.voltage"@ != "environment.depth.surfaceToTransducer"@,
        "electrical.batteries.0.voltage"@ != "environment.outside.humidity"@,
        "electrical.batteries.0.voltage"@ != "environment.outside.pressure"@,
        "electrical.batteries.0.voltage"@ != "environment.outside.temperature"@,
        "electrical.batteries.0.voltage"@ != "environment.water.temperature"@,
        "electrical.batteries.0.voltage"@ != "environment.wind.angleApparent"@,
        "electrical.batteries.0.voltage"@ != "environment.wind.speedApparent"@,
        "electrical.batteries.0.voltage"@ != "navigation.attitude"@,
        "electrical.batteries.0.voltage"@ != "navigation.courseOverGroundTrue"@,
        "electrical.batteries.0.voltage"@ != "navigation.datetime"@,
        "electrical.batteries.0.voltage"@ != "navigation.headingMagnetic"@,
        "electrical.batteries.0.voltage"@ != "navigation.magneticVariation"@,
        "electrical.batteries.0.voltage"@ != "navigation.position"@,
        "electrical.batteries.0.voltage"@ != "navigation.speedOverGround"@,
        "electrical.batteries.0.voltage"@ != "navigation.speedThroughWater"@,
        "electrical.batteries.0.voltage"@ != "propulsion.main.coolantTemperature"@,
        "electrical.batteries.0.voltage"@ != "propulsion.main.fuel.rate"@,
        "electrical.batteries.0.voltage"@ != "propulsion.main.oilTemperature"@,
        "electrical.batteries.0.voltage"@ != "propulsion.main.revolutions"@,
        "electrical.batteries.0.voltage"@ != "tanks.freshWater.0.capacity"@,
        "electrical.batteries.0.voltage"@ != "tanks.freshWater.0.currentLevel"@,
        "electrical.batteries.0.voltage"@ != "tanks.fuel.0.capacity"@,
        "electrical.batteries.0.voltage"@ != "tanks.fuel.0.currentLevel"@,
        "environment.depth.belowTransducer"@ != "environment.depth.surfaceToTransducer"@,
        "environment.depth.belowTransducer"@ != "environment.outside.humidity"@,
        "environment.depth.belowTransducer"@ != "environment.outside.pressure"@,
        "environment.depth.belowTransducer"@ != "environment.outside.temperature"@,
        "environment.depth.belowTransducer"@ != "environment.water.temperature"@,
        "environment.depth.belowTransducer"@ != "environment.wind.angleApparent"@,
        "environment.depth.belowTransducer"@ != "environment.wind.speedApparent"@,
        "environment.depth.belowTransducer"@ != "navigation.attitude"@,
        "environment.depth.belowTransducer"@ != "navigation.courseOverGroundTrue"@,
        "environment.depth.belowTransducer"@ != "navigation.datetime"@,
        "environment.depth.belowTransducer"@ != "navigation.headingMagnetic"@,
        "environment.depth.belowTransducer"@ != "navigation.magneticVariation"@,
        "environment.depth.belowTransducer"@ != "navigation.position"@,
        "environment.depth.belowTransducer"@ != "navigation.speedOverGround"@,
        "environment.depth.belowTransducer"@ != "navigation.speedThroughWater"@,
        "environment.depth.belowTransducer"@ != "propulsion.main.coolantTemperature"@,
        "environment.depth.belowTransducer"@ != "propulsion.main.fuel.rate"@,
        "environment.depth.belowTransducer"@ != "propulsion.main.oilTemperature"@,
        "environment.depth.belowTransducer"@ != "propulsion.main.revolutions"@,
        "environment.depth.belowTransducer"@ != "tanks.freshWater.0.capacity"@,
        "environment.depth.belowTransducer"@ != "tanks.freshWater.0.currentLevel"@,
        "environment.depth.belowTransducer"@ != "tanks.fuel.0.capacity"@,
        "environment.depth.belowTransducer"@ != "tanks.fuel.0.currentLevel"@,
        "environment.depth.surfaceToTransducer"@ != "environment.outside.humidity"@,
        "environment.depth.surfaceToTransducer"@ != "environment.outside.pressure"@,
        "environment.depth.surfaceToTransducer"@ != "environment.outside.temperature"@,
        "environment.depth.surfaceToTransducer"@ != "environment.water.temperature"@,
        "environment.depth.surfaceToTransducer"@ != "environment.wind.angleApparent"@,
        "environment.depth.surfaceToTransducer"@ != "environment.wind.speedApparent"@,
        "environment.depth.surfaceToTransducer"@ != "navigation.attitude"@,
        "environment.depth.surfaceToTransducer"@ != "navigation.courseOverGroundTrue"@,
        "environment.depth.surfaceToTransducer"@ != "navigation.datetime"@,
        "environment.depth.surfaceToTransducer"@ != "navigation.headingMagnetic"@,
        "environment.depth.surfaceToTransducer"@ != "navigation.magneticVariation"@,
        "environment.depth.surfaceToTransducer"@ != "navigation.position"@,
        "environment.depth.surfaceToTransducer"@ != "navigation.speedOverGround"@,
        "environment.depth.surfaceToTransducer"@ != "navigation.speedThroughWater"@,
        "environment.depth.surfaceToTransducer"@ != "propulsion.main.coolantTemperature"@,
        "environment.depth.surfaceToTransducer"@ != "propulsion.main.fuel.rate"@,
        "environment.depth.surfaceToTransducer"@ != "propulsion.main.oilTemperature"@,
        "environment.depth.surfaceToTransducer"@ != "propulsion.main.revolutions"@,
        "environment.depth.surfaceToTransducer"@ != "tanks.freshWater.0.capacity"@,
        "environment.depth.surfaceToTransducer"@ != "tanks.freshWater.0.currentLevel"@,
        "environment.depth.surfaceToTransducer"@ != "tanks.fuel.0.capacity"@,
        "environment.depth.surfaceToTransducer"@ != "tanks.fuel.0.currentLevel"@,
        "environment.outside.humidity"@ != "environment.outside.pressure"@,
        "environment.outside.humidity"@ != "environment.outside.temperature"@,
        "environment.outside.humidity"@ != "environment.water.temperature"@,
        "environment.outside.humidity"@ != "environment.wind.angleApparent"@,
        "environment.outside.humidity"@ != "environment.wind.speedApparent"@,
        "environment.outside.humidity"@ != "navigation.attitude"@,
        "environment.outside.humidity"@ != "navigation.courseOverGroundTrue"@,
        "environment.outside.humidity"@ != "navigation.datetime"@,
        "environment.outside.humidity"@ != "navigation.headingMagnetic"@,
        "environment.outside.humidity"@ != "navigation.magneticVariation"@,
        "environment.outside.humidity"@ != "navigation.position"@,
        "environment.outside.humidity"@ != "navigation.speedOverGround"@,
        "environment.outside.humidity"@ != "navigation.speedThroughWater"@,
        "environment.outside.humidity"@ != "propulsion.main.coolantTemperature"@,
        "environment.outside.humidity"@ != "propulsion.main.fuel.rate"@,
        "environment.outside.humidity"@ != "propulsion.main.oilTemperature"@,
        "environment.outside.humidity"@ != "propulsion.main.revolutions"@,
        "environment.outside.humidity"@ != "tanks.freshWater.0.capacity"@,
        "environment.outside.humidity"@ != "tanks.freshWater.0.currentLevel"@,
        "environment.outside.humidity"@ != "tanks.fuel.0.capacity"@,
        "environment.outside.humidity"@ != "tanks.fuel.0.currentLevel"@,
        "environment.outside.pressure"@ != "environment.outside.temperature"@,
        "environment.outside.pressure"@ != "environment.water.temperature"@,
        "environment.outside.pressure"@ != "environment.wind.angleApparent"@,
        "environment.outside.pressure"@ != "environment.wind.speedApparent"@,
        "environment.outside.pressure"@ != "navigation.attitude"@,
        "environment.outside.pressure"@ != "navigation.courseOverGroundTrue"@,
        "environment.outside.pressure"@ != "navigation.datetime"@,
        "environment.outside.pressure"@ != "navigation.headingMagnetic"@,
        "environment.outside.pressure"@ != "navigation.magneticVariation"@,
        "environment.outside.pressure"@ != "navigation.position"@,
        "environment.outside.pressure"@ != "navigation.speedOverGround"@,
        "environment.outside.pressure"@ != "navigation.speedThroughWater"@,
        "environment.outside.pressure"@ != "propulsion.main.coolantTemperature"@,
        "environment.outside.pressure"@ != "propulsion.main.fuel.rate"@,
        "environment.outside.pressure"@ != "propulsion.main.oilTemperature"@,
        "environment.outside.pressure"@ != "propulsion.main.revolutions"@,
        "environment.outside.pressure"@ != "tanks.freshWater.0.capacity"@,
        "environment.outside.pressure"@ != "tanks.freshWater.0.currentLevel"@,
        "environment.outside.pressure"@ != "tanks.fuel.0.capacity"@,
        "environment.outside.pressure"@ != "tanks.fuel.0.currentLevel"@,
        "environment.outside.temperature"@ != "environment.water.temperature"@,
        "environment.outside.temperature"@ != "environment.wind.angleApparent"@,
        "environment.outside.temperature"@ != "environment.wind.speedApparent"@,
        "environment.outside.temperature"@ != "navigation.attitude"@,
        "environment.outside.temperature"@ != "navigation.courseOverGroundTrue"@,
        "environment.outside.temperature"@ != "navigation.datetime"@,
        "environment.outside.temperature"@ != "navigation.headingMagnetic"@,
        "environment.outside.temperature"@ != "navigation.magneticVariation"@,
        "environment.outside.temperature"@ != "navigation.position"@,
        "environment.outside.temperature"@ != "navigation.speedOverGround"@,
        "environment.outside.temperature"@ != "navigation.speedThroughWater"@,
        "environment.outside.temperature"@ != "propulsion.main.coolantTemperature"@,
        "environment.outside.temperature"@ != "propulsion.main.fuel.rate"@,
        "environment.outside.temperature"@ != "propulsion.main.oilTemperature"@,
        "environment.outside.temperature"@ != "propulsion.main.revolutions"@,
        "environment.outside.temperature"@ != "tanks.freshWater.0.capacity"@,
        "environment.outside.temperature"@ != "tanks.freshWater.0.currentLevel"@,
        "environment.outside.temperature"@ != "tanks.fuel.0.capacity"@,
        "environment.outside.temperature"@ != "tanks.fuel.0.currentLevel"@,
        "environment.water.temperature"@ != "environment.wind.angleApparent"@,
        "environment.water.temperature"@ != "environment.wind.speedApparent"@,
        "environment.water.temperature"@ != "navigation.attitude"@,
        "environment.water.temperature"@ != "navigation.courseOverGroundTrue"@,
        "environment.water.temperature"@ != "navigation.datetime"@,
        "environment.water.temperature"@ != "navigation.headingMagnetic"@,
        "environment.water.temperature"@ != "navigation.magneticVariation"@,
        "environment.water.temperature"@ != "navigation.position"@,
        "environment.water.temperature"@ != "navigation.speedOverGround"@,
        "environment.water.temperature"@ != "navigation.speedThroughWater"@,
        "environment.water.temperature"@ != "propulsion.main.coolantTemperature"@,
        "environment.water.temperature"@ != "propulsion.main.fuel.rate"@,
        "environment.water.temperature"@ != "propulsion.main.oilTemperature"@,
        "environment.water.temperature"@ != "propulsion.main.revolutions"@,
        "environment.water.temperature"@ != "tanks.freshWater.0.capacity"@,
        "environment.water.temperature"@ != "tanks.freshWater.0.currentLevel"@,
        "environment.water.temperature"@ != "tanks.fuel.0.capacity"@,
        "environment.water.temperature"@ != "tanks.fuel.0.currentLevel"@,
        "environment.wind.angleApparent"@ != "environment.wind.speedApparent"@,
        "environment.wind.angleApparent"@ != "navigation.attitude"@,
        "environment.wind.angleApparent"@ != "navigation.courseOverGroundTrue"@,
        "environment.wind.angleApparent"@ != "navigation.datetime"@,
        "environment.wind.angleApparent"@ != "navigation.headingMagnetic"@,
        "environment.wind.angleApparent"@ != "navigation.magneticVariation"@,
        "environment.wind.angleApparent"@ != "navigation.position"@,
        "environment.wind.angleApparent"@ != "navigation.speedOverGround"@,
        "environment.wind.angleApparent"@ != "navigation.speedThroughWater"@,
        "environment.wind.angleApparent"@ != "propulsion.main.coolantTemperature"@,
        "environment.wind.angleApparent"@ != "propulsion.main.fuel.rate"@,
        "environment.wind.angleApparent"@ != "propulsion.main.oilTemperature"@,
        "environment.wind.angleApparent"@ != "propulsion.main.revolutions"@,
        "environment.wind.angleApparent"@ != "tanks.freshWater.0.capacity"@,
        "environment.wind.angleApparent"@ != "tanks.freshWater.0.currentLevel"@,
        "environment.wind.angleApparent"@ != "tanks.fuel.0.capacity"@,
        "environment.wind.angleApparent"@ != "tanks.fuel.0.currentLevel"@,
        "environment.wind.speedApparent"@ != "navigation.attitude"@,
        "environment.wind.speedApparent"@ != "navigation.courseOverGroundTrue"@,
        "environment.wind.speedApparent"@ != "navigation.datetime"@,
        "environment.wind.speedApparent"@ != "navigation.headingMagnetic"@,
        "environment.wind.speedApparent"@ != "navigation.magneticVariation"@,
        "environment.wind.speedApparent"@ != "navigation.position"@,
        "environment.wind.speedApparent"@ != "navigation.speedOverGround"@,
        "environment.wind.speedApparent"@ != "navigation.speedThroughWater"@,
        "environment.wind.speedApparent"@ != "propulsion.main.coolantTemperature"@,
        "environment.wind.speedApparent"@ != "propulsion.main.fuel.rate"@,
        "environment.wind.speedApparent"@ != "propulsion.main.oilTemperature"@,
        "environment.wind.speedApparent"@ != "propulsion.main.revolutions"@,
        "environment.wind.speedApparent"@ != "tanks.freshWater.0.capacity"@,
        "environment.wind.speedApparent"@ != "tanks.freshWater.0.currentLevel"@,
        "environment.wind.speedApparent"@ != "tanks.fuel.0.capacity"@,
        "environment.wind.speedApparent"@ != "tanks.fuel.0.currentLevel"@,
        "navigation.attitude"@ != "navigation.courseOverGroundTrue"@,
        "navigation.attitude"@ != "navigation.datetime"@,
        "navigation.attitude"@ != "navigation.headingMagnetic"@,
        "navigation.attitude"@ != "navigation.magneticVariation"@,
        "navigation.attitude"@ != "navigation.position"@,
        "navigation.attitude"@ != "navigation.speedOverGround"@,
        "navigation.attitude"@ != "navigation.speedThroughWater"@,
        "navigation.attitude"@ != "propulsion.main.coolantTemperature"@,
        "navigation.attitude"@ != "propulsion.main.fuel.rate"@,
        "navigation.attitude"@ != "propulsion.main.oilTemperature"@,
        "navigation.attitude"@ != "propulsion.main.revolutions"@,
        "navigation.attitude"@ != "tanks.freshWater.0.capacity"@,
        "navigation.attitude"@ != "tanks.freshWater.0.currentLevel"@,
        "navigation.attitude"@ != "tanks.fuel.0.capacity"@,
        "navigation.attitude"@ != "tanks.fuel.0.currentLevel"@,
        "navigation.courseOverGroundTrue"@ != "navigation.datetime"@,
        "navigation.courseOverGroundTrue"@ != "navigation.headingMagnetic"@,
        "navigation.courseOverGroundTrue"@ != "navigation.magneticVariation"@,
        "navigation.courseOverGroundTrue"@ != "navigation.position"@,
        "navigation.courseOverGroundTrue"@ != "navigation.speedOverGround"@,
        "navigation.courseOverGroundTrue"@ != "navigation.speedThroughWater"@,
        "navigation.courseOverGroundTrue"@ != "propulsion.main.coolantTemperature"@,
        "navigation.courseOverGroundTrue"@ != "propulsion.main.fuel.rate"@,
        "navigation.courseOverGroundTrue"@ != "propulsion.main.oilTemperature"@,
        "navigation.courseOverGroundTrue"@ != "propulsion.main.revolutions"@,
        "navigation.courseOverGroundTrue"@ != "tanks.freshWater.0.capacity"@,
        "navigation.courseOverGroundTrue"@ != "tanks.freshWater.0.currentLevel"@,
        "navigation.courseOverGroundTrue"@ != "tanks.fuel.0.capacity"@,
        "navigation.courseOverGroundTrue"@ != "tanks.fuel.0.currentLevel"@,
        "navigation.datetime"@ != "navigation.headingMagnetic"@,
        "navigation.datetime"@ != "navigation.magneticVariation"@,
        "navigation.datetime"@ != "navigation.position"@,
        "navigation.datetime"@ != "navigation.speedOverGround"@,
        "navigation.datetime"@ != "navigation.speedThroughWater"@,
        "navigation.datetime"@ != "propulsion.main.coolantTemperature"@,
        "navigation.datetime"@ != "propulsion.main.fuel.rate"@,
        "navigation.datetime"@ != "propulsion.main.oilTemperature"@,
        "navigation.datetime"@ != "propulsion.main.revolutions"@,
        "navigation.datetime"@ != "tanks.freshWater.0.capacity"@,
        "navigation.datetime"@ != "tanks.freshWater.0.currentLevel"@,
        "navigation.datetime"@ != "tanks.fuel.0.capacity"@,
        "navigation.datetime"@ != "tanks.fuel.0.currentLevel"@,
        "navigation.headingMagnetic"@ != "navigation.magneticVariation"@,
        "navigation.headingMagnetic"@ != "navigation.position"@,
        "navigation.headingMagnetic"@ != "navigation.speedOverGround"@,
        "navigation.headingMagnetic"@ != "navigation.speedThroughWater"@,
        "navigation.headingMagnetic"@ != "propulsion.main.coolantTemperature"@,
        "navigation.headingMagnetic"@ != "propulsion.main.fuel.rate"@,
        "navigation.headingMagnetic"@ != "propulsion.main.oilTemperature"@,
        "navigation.headingMagnetic"@ != "propulsion.main.revolutions"@,
        "navigation.headingMagnetic"@ != "tanks.freshWater.0.capacity"@,
        "navigation.headingMagnetic"@ != "tanks.freshWater.0.currentLevel"@,
        "navigation.headingMagnetic"@ != "tanks.fuel.0.capacity"@,
        "navigation.headingMagnetic"@ != "tanks.fuel.0.currentLevel"@,
        "navigation.magneticVariation"@ != "navigation.position"@,
        "navigation.magneticVariation"@ != "navigation.speedOverGround"@,
        "navigation.magneticVariation"@ != "navigation.speedThroughWater"@,
        "navigation.magneticVariation"@ != "propulsion.main.coolantTemperature"@,
        "navigation.magneticVariation"@ != "propulsion.main.fuel.rate"@,
        "navigation.magneticVariation"@ != "propulsion.main.oilTemperature"@,
        "navigation.magneticVariation"@ != "propulsion.main.revolutions"@,
        "navigation.magneticVariation"@ != "tanks.freshWater.0.capacity"@,
        "navigation.magneticVariation"@ != "tanks.freshWater.0.currentLevel"@,
        "navigation.magneticVariation"@ != "tanks.fuel.0.capacity"@,
        "navigation.magneticVariation"@ != "tanks.fuel.0.currentLevel"@,
        "navigation.position"@ != "navigation.speedOverGround"@,
        "navigation.position"@ != "navigation.speedThroughWater"@,
        "navigation.position"@ != "propulsion.main.coolantTemperature"@,
        "navigation.position"@ != "propulsion.main.fuel.rate"@,
        "navigation.position"@ != "propulsion.main.oilTemperature"@,
        "navigation.position"@ != "propulsion.main.revolutions"@,
        "navigation.position"@ != "tanks.freshWater.0.capacity"@,
        "navigation.position"@ != "tanks.freshWater.0.currentLevel"@,
        "navigation.position"@ != "tanks.fuel.0.capacity"@,
        "navigation.position"@ != "tanks.fuel.0.currentLevel"@,
        "navigation.speedOverGround"@ != "navigation.speedThroughWater"@,
        "navigation.speedOverGround"@ != "propulsion.main.coolantTemperature"@,
        "navigation.speedOverGround"@ != "propulsion.main.fuel.rate"@,
        "navigation.speedOverGround"@ != "propulsion.main.oilTemperature"@,
        "navigation.speedOverGround"@ != "propulsion.main.revolutions"@,
        "navigation.speedOverGround"@ != "tanks.freshWater.0.capacity"@,
        "navigation.speedOverGround"@ != "tanks.freshWater.0.currentLevel"@,
        "navigation.speedOverGround"@ != "tanks.fuel.0.capacity"@,
        "navigation.speedOverGround"@ != "tanks.fuel.0.currentLevel"@,
        "navigation.speedThroughWater"@ != "propulsion.main.coolantTemperature"@,
        "navigation.speedThroughWater"@ != "propulsion.main.fuel.rate"@,
        "navigation.speedThroughWater"@ != "propulsion.main.oilTemperature"@,
        "navigation.speedThroughWater"@ != "propulsion.main.revolutions"@,
        "navigation.speedThroughWater"@ != "tanks.freshWater.0.capacity"@,
        "navigation.speedThroughWater"@ != "tanks.freshWater.0.currentLevel"@,
        "navigation.speedThroughWater"@ != "tanks.fuel.0.capacity"@,
        "navigation.speedThroughWater"@ != "tanks.fuel.0.currentLevel"@,
        "propulsion.main.coolantTemperature"@ != "propulsion.main.fuel.rate"@,
        "propulsion.main.coolantTemperature"@ != "propulsion.main.oilTemperature"@,
        "propulsion.main.coolantTemperature"@ != "propulsion.main.revolutions"@,
        "propulsion.main.coolantTemperature"@ != "tanks.freshWater.0.capacity"@,
        "propulsion.main.coolantTemperature"@ != "tanks.freshWater.0.currentLevel"@,
        "propulsion.main.coolantTemperature"@ != "tanks.fuel.0.capacity"@,
        "propulsion.main.coolantTemperature"@ != "tanks.fuel.0.currentLevel"@,
        "propulsion.main.fuel.rate"@ != "propulsion.main.oilTemperature"@,
        "propulsion.main.fuel.rate"@ != "propulsion.main.revolutions"@,
        "propulsion.main.fuel.rate"@ != "tanks.freshWater.0.capacity"@,
        "propulsion.main.fuel.rate"@ != "tanks.freshWater.0.currentLevel"@,
        "propulsion.main.fuel.rate"@ != "tanks.fuel.0.capacity"@,
        "propulsion.main.fuel.rate"@ != "tanks.fuel.0.currentLevel"@,
        "propulsion.main.oilTemperature"@ != "propulsion.main.revolutions"@,
        "propulsion.main.oilTemperature"@ != "tanks.freshWater.0.capacity"@,
        "propulsion.main.oilTemperature"@ != "tanks.freshWater.0.currentLevel"@,
        "propulsion.main.oilTemperature"@ != "tanks.fuel.0.capacity"@,
        "propulsion.main.oilTemperature"@ != "tanks.fuel.0.currentLevel"@,
        "propulsion.main.revolutions"@ != "tanks.freshWater.0.capacity"@,
        "propulsion.main.revolutions"@ != "tanks.freshWater.0.currentLevel"@,
        "propulsion.main.revolutions"@ != "tanks.fuel.0.capacity"@,
        "propulsion.main.revolutions"@ != "tanks.fuel.0.currentLevel"@,
        "tanks.freshWater.0.capacity"@ != "tanks.freshWater.0.currentLevel"@,
        "tanks.freshWater.0.capacity"@ != "tanks.fuel.0.capacity"@,
        "tanks.freshWater.0.capacity"@ != "tanks.fuel.0.currentLevel"@,
        "tanks.freshWater.0.currentLevel"@ != "tanks.fuel.0.capacity"@,
        "tanks.freshWater.0.currentLevel"@ != "tanks.fuel.0.currentLevel"@,
        "tanks.fuel.0.capacity"@ != "tanks.fuel.0.currentLevel"@,
{
    reveal_strlit("electrical.batteries.0.current");
    reveal_strlit("electrical.batteries.0.voltage");
    reveal_strlit("environment.depth.belowTransducer");
    reveal_strlit("environment.depth.surfaceToTransducer");
    reveal_strlit("environment.outside.humidity");
    reveal_strlit("environment.outside.pressure");
    reveal_strlit("environment.outside.temperature");
    reveal_strlit("environment.water.temperature");
    reveal_strlit("environment.wind.angleApparent");
    reveal_strlit("environment.wind.speedApparent");
    reveal_strlit("navigation.attitude");
    reveal_strlit("navigation.courseOverGroundTrue");
    reveal_strlit("navigation.datetime");
    reveal_strlit("navigation.headingMagnetic");
    reveal_strlit("navigation.magneticVariation");
    reveal_strlit("navigation.position");
    reveal_strlit("navigation.speedOverGround");
    reveal_strlit("navigation.speedThroughWater");
    reveal_strlit("propulsion.main.coolantTemperature");
    reveal_strlit("propulsion.main.fuel.rate");
    reveal_strlit("propulsion.main.oilTemperature");
    reveal_strlit("propulsion.main.revolutions");
    reveal_strlit("tanks.freshWater.0.capacity");
    reveal_strlit("tanks.freshWater.0.currentLevel");
    reveal_strlit("tanks.fuel.0.capacity");
    reveal_strlit("tanks.fuel.0.currentLevel");
    assert("electrical.batteries.0.current"@[0] == 'e');
    assert("electrical.batteries.0.current"@[1] == 'l');
    assert("electrical.batteries.0.current"@[23] == 'c');
    assert("electrical.batteries.0.current"@.len() == 30);
    assert("electrical.batteries.0.voltage"@[0] == 'e');
    assert("electrical.batteries.0.voltage"@[1] == 'l');
    assert("electrical.batteries.0.voltage"@[23] == 'v');
    assert("electrical.batteries.0.voltage"@.len() == 30);
    assert("environment.depth.belowTransducer"@.len() == 33);
    assert("environment.depth.surfaceToTransducer"@.len() == 37);
    assert("environment.outside.humidity"@[0] == 'e');
    assert("environment.outside.humidity"@[20] == 'h');
    assert("environment.outside.humidity"@.len() == 28);
    assert("environment.outside.pressure"@[0] == 'e');
    assert("environment.outside.pressure"@[20] == 'p');
    assert("environment.outside.pressure"@.len() == 28);
    assert("environment.outside.temperature"@[0] == 'e');
    assert("environment.outside.temperature"@.len() == 31);
    assert("environment.water.temperature"@.len() == 29);
    assert("environment.wind.angleApparent"@[0] == 'e');
    assert("environment.wind.angleApparent"@[1] == 'n');
    assert("environment.wind.angleApparent"@[17] == 'a');
    assert("environment.wind.angleApparent"@.len() == 30);
    assert("environment.wind.speedApparent"@[0] == 'e');
    assert("environment.wind.speedApparent"@[1] == 'n');
    assert("environment.wind.speedApparent"@[17] == 's');
    assert("environment.wind.speedApparent"@.len() == 30);
    assert("navigation.attitude"@[11] == 'a');
    assert("navigation.attitude"@.len() == 19);
    assert("navigation.courseOverGroundTrue"@[0] == 'n');
    assert("navigation.courseOverGroundTrue"@.len() == 31);
    assert("navigation.datetime"@[11] == 'd');
    assert("navigation.datetime"@.len() == 19);
    assert("navigation.headingMagnetic"@[11] == 'h');
    assert("navigation.headingMagnetic"@.len() == 26);
    assert("navigation.magneticVariation"@[0] == 'n');
    assert("navigation.magneticVariation"@[11] == 'm');
    assert("navigation.magneticVariation"@.len() == 28);
    assert("navigation.position"@[11] == 'p');
    assert("navigation.position"@.len() == 19);
    assert("navigation.speedOverGround"@[11] == 's');
    assert("navigation.speedOverGround"@.len() == 26);
    assert("navigation.speedThroughWater"@[0] == 'n');
    assert("navigation.speedThroughWater"@[11] == 's');
    assert("navigation.speedThroughWater"@.len() == 28);
    assert("propulsion.main.coolantTemperature"@.len() == 34);
    assert("propulsion.main.fuel.rate"@[0] == 'p');
    assert("propulsion.main.fuel.rate"@.len() == 25);
    assert("propulsion.main.oilTemperature"@[0] == 'p');
    assert("propulsion.main.oilTemperature"@.len() == 30);
    assert("propulsion.main.revolutions"@[0] == 'p');
    assert("propulsion.main.revolutions"@.len() == 27);
    assert("tanks.freshWater.0.capacity"@[0] == 't');
    assert("tanks.freshWater.0.capacity"@.len() == 27);
    assert("tanks.freshWater.0.currentLevel"@[0] == 't');
    assert("tanks.freshWater.0.currentLevel"@.len() == 31);
    assert("tanks.fuel.0.capacity"@.len() == 21);
    assert("tanks.fuel.0.currentLevel"@[0] == 't');
    assert("tanks.fuel.0.currentLevel"@.len() == 25);
}

/// A step tells position, motion and attitude of the own vessel, whatever else it tells.
#[verifier::spinoff_prover]
pub proof fn step_tells_where_and_how_the_vessel_moves(
    values: SimulatedValues,
    enable_environment: bool,
    datetime: Seq<char>,
)
    ensures
        ({
            let d = step_delta(values, enable_environment, datetime);
            &&& told(Some(d), "navigation.position"@)
                == place_of(num(values.latitude), num(values.longitude))
            &&& told(Some(d), "navigation.speedOverGround"@) == only(num(values.sog_mps))
            &&& told(Some(d), "navigation.courseOverGroundTrue"@) == only(num(values.cog_rad))
            &&& told(Some(d), "navigation.headingMagnetic"@) == only(
                num(values.heading_magnetic_rad),
            )
            &&& told(Some(d), "navigation.magneticVariation"@) == only(
                num(values.magnetic_variation_rad),
            )
            &&& told(Some(d), "navigation.speedThroughWater"@) == only(num(values.stw_mps))
            &&& told(Some(d), "navigation.attitude"@) == seq![
                ValueView::Object(
                    seq![
                        FieldView { key: "roll"@, value: ValueView::Number(num(values.roll_rad)) },
                        FieldView { key: "pitch"@,
                            value: ValueView::Number(num(values.pitch_rad)) },
                        FieldView { key: "yaw"@, value: ValueView::Number(lit(ZERO)) },
                    ],
                ),
            ]
            &&& told(Some(d), "navigation.datetime"@) == seq![ValueView::Text(datetime)]
        }),
{
    broadcast use group_paths;

    simulated_paths_differ();
    let d = step_delta(values, enable_environment, datetime);
    one_update_tells_all(d, "navigation.position"@);
    one_update_tells_all(d, "navigation.speedOverGround"@);
    one_update_tells_all(d, "navigation.courseOverGroundTrue"@);
    one_update_tells_all(d, "navigation.headingMagnetic"@);
    one_update_tells_all(d, "navigation.magneticVariation"@);
    one_update_tells_all(d, "navigation.speedThroughWater"@);
    one_update_tells_all(d, "navigation.attitude"@);
    one_update_tells_all(d, "navigation.datetime"@);
}

/// A step tells the environment if it is wanted, and nothing of it otherwise.
#[verifier::spinoff_prover]
pub proof fn step_tells_the_environment(
    values: SimulatedValues,
    enable_environment: bool,
    datetime: Seq<char>,
)
    ensures
        ({
            let d = step_delta(values, enable_environment, datetime);
            &&& told(Some(d), "environment.wind.angleApparent"@) == if enable_environment {
                only(num(values.wind_angle_apparent_rad))
            } else {
                Seq::empty()
            }
            &&& told(Some(d), "environment.wind.speedApparent"@) == if enable_environment {
                only(num(values.wind_speed_apparent_mps))
            } else {
                Seq::empty()
            }
            &&& told(Some(d), "environment.depth.belowTransducer"@) == if enable_environment {
                only(num(values.depth_below_transducer_m))
            } else {
                Seq::empty()
            }
            &&& told(Some(d), "environment.depth.surfaceToTransducer"@) == if enable_environment {
                only(num(values.surface_to_transducer_m))
            } else {
                Seq::empty()
            }
            &&& told(Some(d), "environment.water.temperature"@) == if enable_environment {
                only(num(values.water_temperature_k))
            } else {
                Seq::empty()
            }
            &&& told(Some(d), "environment.outside.temperature"@) == if enable_environment {
                only(num(values.air_temperature_k))
            } else {
                Seq::empty()
            }
            &&& told(Some(d), "environment.outside.pressure"@) == if enable_environment {
                only(num(values.pressure_pa))
            } else {
                Seq::empty()
            }
            &&& told(Some(d), "environment.outside.humidity"@) == if enable_environment {
                only(num(values.humidity_ratio))
            } else {
                Seq::empty()
            }
        }),
{
    broadcast use group_paths;

    simulated_paths_differ();
    let d = step_delta(values, enable_environment, datetime);
    one_update_tells_all(d, "environment.wind.angleApparent"@);
    one_update_tells_all(d, "environment.wind.speedApparent"@);
    one_update_tells_all(d, "environment.depth.belowTransducer"@);
    one_update_tells_all(d, "environment.depth.surfaceToTransducer"@);
    one_update_tells_all(d, "environment.water.temperature"@);
    one_update_tells_all(d, "environment.outside.temperature"@);
    one_update_tells_all(d, "environment.outside.pressure"@);
    one_update_tells_all(d, "environment.outside.humidity"@);
}

/// A step tells the values of the engine if there is one.
#[verifier::spinoff_prover]
pub proof fn step_tells_the_engine(
    values: SimulatedValues,
    enable_environment: bool,
    datetime: Seq<char>,
)
    ensures
        ({
            let d = step_delta(values, enable_environment, datetime);
            &&& told(Some(d), "propulsion.main.revolutions"@) == (match values.propulsion {
                Some(engine) => only(num(engine.revolutions_hz)),
                None => Seq::empty(),
            })
            &&& told(Some(d), "propulsion.main.oilTemperature"@) == (match values.propulsion {
                Some(engine) => only(num(engine.oil_temperature_k)),
                None => Seq::empty(),
            })
            &&& told(Some(d), "propulsion.main.coolantTemperature"@) == (match values.propulsion {
                Some(engine) => only(num(engine.coolant_temperature_k)),
                None => Seq::empty(),
            })
            &&& told(Some(d), "propulsion.main.fuel.rate"@) == (match values.propulsion {
                Some(engine) => only(num(engine.fuel_rate_m3s)),
                None => Seq::empty(),
            })
            &&& told(Some(d), "electrical.batteries.0.voltage"@) == (match values.propulsion {
                Some(engine) => only(num(engine.battery_voltage)),
                None => Seq::empty(),
            })
            &&& told(Some(d), "electrical.batteries.0.current"@) == (match values.propulsion {
                Some(engine) => only(num(engine.battery_current)),
                None => Seq::empty(),
            })
        }),
{
    broadcast use group_paths;

    simulated_paths_differ();
    let d = step_delta(values, enable_environment, datetime);
    one_update_tells_all(d, "propulsion.main.revolutions"@);
    one_update_tells_all(d, "propulsion.main.oilTemperature"@);
    one_update_tells_all(d, "propulsion.main.coolantTemperature"@);
    one_update_tells_all(d, "propulsion.main.fuel.rate"@);
    one_update_tells_all(d, "electrical.batteries.0.voltage"@);
    one_update_tells_all(d, "electrical.batteries.0.current"@);
}

/// A step tells levels and capacities of the tanks, and says who tells it.
#[verifier::spinoff_prover]
pub proof fn step_tells_the_tanks(
    values: SimulatedValues,
    enable_environment: bool,
    datetime: Seq<char>,
)
    ensures
        ({
            let d = step_delta(values, enable_environment, datetime);
            &&& told(Some(d), "tanks.fuel.0.currentLevel"@) == only(num(values.fuel_tank_level))
            &&& told(Some(d), "tanks.fuel.0.capacity"@) == only(num(values.fuel_tank_capacity_m3))
            &&& told(Some(d), "tanks.freshWater.0.currentLevel"@) == only(
                num(values.fresh_water_level),
            )
            &&& told(Some(d), "tanks.freshWater.0.capacity"@) == only(
                num(values.fresh_water_capacity_m3),
            )
            &&& d.context == Some("vessels.self"@)
            &&& d.updates[0].source.label == "sensor-data-simulator"@
        }),
{
    broadcast use group_paths;

    simulated_paths_differ();
    let d = step_delta(values, enable_environment, datetime);
    one_update_tells_all(d, "tanks.fuel.0.currentLevel"@);
    one_update_tells_all(d, "tanks.fuel.0.capacity"@);
    one_update_tells_all(d, "tanks.freshWater.0.currentLevel"@);
    one_update_tells_all(d, "tanks.freshWater.0.capacity"@);
}

// ---------------------------------------------------------------------------
// NMEA 2000
// ---------------------------------------------------------------------------

/// Each message of a step carries its values: course and speed over ground against true north, the
/// magnetic heading with the variation, the speeds through water and over ground, the apparent
/// wind, and the depth with the offset of the transducer.
pub proof fn messages_carry_their_values(
    values: SimulatedValues,
    sid: u8,
    enable_environment: bool,
    i: int,
)
    requires
        0 <= i < step_messages(values, sid, enable_environment).0.len(),
    ensures
        ({
            let m = step_messages(values, sid, enable_environment).0[i];
            let next = (sid + i - 1) % 256;
            &&& m.priority == if i == 5 {
                3u8
            } else {
                2u8
            }
            &&& match m.content {
                Content::Position { latitude, longitude } => i == 0 && m.pgn == 129025 && latitude
                    == values.latitude && longitude == values.longitude,
                Content::CogSog { sid: n, cog_reference, cog, sog } => i == 1 && m.pgn == 129026
                    && n == next && cog_reference == 0 && cog == Some(values.cog_rad) && sog
                    == Some(values.sog_mps),
                Content::Heading { sid: n, heading, reference, variation } => i == 2 && m.pgn
                    == 127250 && n == next && heading == values.heading_magnetic_rad && reference
                    == 1 && variation == Some(values.magnetic_variation_rad),
                Content::Speed { sid: n, water_referenced, ground_referenced } => i == 3 && m.pgn
                    == 128259 && n == next && water_referenced == values.stw_mps
                    && ground_referenced == values.sog_mps,
                Content::Wind { sid: n, reference, speed, angle } => i == 4 && m.pgn == 130306 && n
                    == next && reference == 2 && speed == Some(values.wind_speed_apparent_mps)
                    && angle == Some(values.wind_angle_apparent_rad),
                Content::Depth { sid: n, depth, offset } => i == 5 && m.pgn == 128267 && n == next
                    && depth == values.depth_below_transducer_m && offset
                    == values.surface_to_transducer_m,
            }
        }),
        step_messages(values, sid, enable_environment).0.len() == if enable_environment {
            6int
        } else {
            4
        },
{
}

// ---------------------------------------------------------------------------
// NMEA 0183
// ---------------------------------------------------------------------------

/// How one piece reads, where `write` writes the numbers.
pub open spec fn reads(p: PieceView, write: spec_fn(PieceView) -> Seq<char>) -> Seq<char> {
    match p {
        PieceView::Text(s) => s,
        n => write(n),
    }
}

/// How a template reads.
pub open spec fn rendered(
    pieces: Seq<PieceView>,
    write: spec_fn(PieceView) -> Seq<char>,
) -> Seq<char>
    decreases pieces.len(),
{
    if pieces.len() == 0 {
        Seq::empty()
    } else {
        rendered(pieces.drop_last(), write) + reads(pieces.last(), write)
    }
}

/// One more piece is read behind the others.
broadcast proof fn pieces_read_on(
    pieces: Seq<PieceView>,
    p: PieceView,
    write: spec_fn(PieceView) -> Seq<char>,
)
    ensures
        #[trigger] rendered(pieces.push(p), write) == rendered(pieces, write) + reads(p, write),
{
    assert(pieces.push(p).drop_last() =~= pieces);
}

/// The first piece is read as it is.
proof fn first_piece_reads(s: Seq<char>, write: spec_fn(PieceView) -> Seq<char>)
    ensures
        rendered(seq![PieceView::Text(s)], write) == s,
{
    assert(seq![PieceView::Text(s)].drop_last() =~= Seq::<PieceView>::empty());
    assert(rendered(seq![PieceView::Text(s)].drop_last(), write) =~= Seq::<char>::empty());
    assert(Seq::<char>::empty() + s =~= s);
}

/// A number with one decimal.
pub open spec fn tenths(value: Expr) -> PieceView {
    PieceView::Number { value, decimals: 1, width: 0 }
}

/// Radians in degrees.
pub open spec fn deg(angle: Expr) -> Expr {
    angle.times(lit(HALF_TURN_DEGREES)).over(lit(PI))
}

/// Metres per second in knots.
pub open spec fn kn(speed: Real) -> Expr {
    num(speed).times(lit(MPS_TO_KNOTS))
}

/// The whole degrees of a coordinate.
pub open spec fn whole(x: Real) -> Expr {
    num(x).absolute().floor().to_word()
}

/// A coordinate: whole degrees, minutes with four decimals, and the hemisphere.
pub open spec fn place_text(
    x: Real,
    width: usize,
    positive: Seq<char>,
    negative: Seq<char>,
    write: spec_fn(PieceView) -> Seq<char>,
) -> Seq<char> {
    write(PieceView::Whole { value: whole(x), width }) + write(
        PieceView::Number {
            value: num(x).absolute().minus(whole(x)).times(lit(SIXTY)),
            decimals: 4,
            width: 7,
        },
    ) + ","@ + if (Real { bits: ZERO }).le(x) {
        positive
    } else {
        negative
    }
}

/// Hours, minutes and seconds.
pub open spec fn time_text(at: Moment, write: spec_fn(PieceView) -> Seq<char>) -> Seq<char> {
    padded(at.hour as nat, 2) + padded(at.minute as nat, 2) + write(
        PieceView::Number {
            value: Expr::Int(at.unix_seconds).remainder(lit(SIXTY)).plus(
                Expr::Uint(at.millis as u64).over(lit(THOUSAND)),
            ),
            decimals: 2,
            width: 5,
        },
    )
}

/// The side of the variation.
pub open spec fn variation_side(values: SimulatedValues) -> Seq<char> {
    if (Real { bits: ZERO }).le(values.magnetic_variation_rad) {
        "E"@
    } else {
        "W"@
    }
}

/// A position behind other pieces reads as latitude and longitude.
proof fn position_reads(
    list: Seq<PieceView>,
    values: SimulatedValues,
    write: spec_fn(PieceView) -> Seq<char>,
)
    ensures
        rendered(with_position(list, values), write) == rendered(list, write) + place_text(
            values.latitude,
            2,
            "N"@,
            "S"@,
            write,
        ) + ","@ + place_text(values.longitude, 3, "E"@, "W"@, write),
{
    broadcast use pieces_read_on;

    let lat = coordinate(values.latitude, 2);
    let lon = coordinate(values.longitude, 3);
    assert(with_position(list, values) =~= list.push(lat[0]).push(lat[1]).push(
        PieceView::Text(","@),
    ).push(PieceView::Text(side(values.latitude, "N"@, "S"@))).push(PieceView::Text(","@)).push(
        lon[0],
    ).push(lon[1]).push(PieceView::Text(","@)).push(
        PieceView::Text(side(values.longitude, "E"@, "W"@)),
    ));
    assert(rendered(with_position(list, values), write) =~= rendered(list, write) + place_text(
        values.latitude,
        2,
        "N"@,
        "S"@,
        write,
    ) + ","@ + place_text(values.longitude, 3, "E"@, "W"@, write));
}

/// RMC reads: time, position, speed in knots, course in degrees, date, and the variation with its
/// side.
#[verifier::spinoff_prover]
pub proof fn rmc_reads(
    values: SimulatedValues,
    talker: Seq<char>,
    at: Moment,
    write: spec_fn(PieceView) -> Seq<char>,
)
    ensures
        rendered(rmc_pieces(values, talker, at), write) == talker
            + "RMC,"@
            + time_text(at, write)
            + ",A,"@
            + place_text(values.latitude, 2, "N"@, "S"@, write)
            + ","@
            + place_text(values.longitude, 3, "E"@, "W"@, write)
            + ","@
            + write(tenths(kn(values.sog_mps)))
            + ","@
            + write(tenths(deg(num(values.cog_rad))))
            + ","@
            + padded(at.date.day as nat, 2)
            + padded(at.date.month as nat, 2)
            + padded((at.date.year % 100) as nat, 2)
            + ","@
            + write(tenths(deg(num(values.magnetic_variation_rad).absolute())))
            + ","@
            + variation_side(values)
            + ",A"@,
{
    broadcast use pieces_read_on;

    first_piece_reads(talker, write);
    let p0 = seq![PieceView::Text(talker)].push(PieceView::Text("RMC,"@));
    let p1 = with_time(p0, at).push(PieceView::Text(",A,"@));
    position_reads(p1, values, write);
    assert(rendered(p1, write) =~= talker + "RMC,"@ + time_text(at, write) + ",A,"@);
    assert(rendered(rmc_pieces(values, talker, at), write) =~= talker
        + "RMC,"@
        + time_text(at, write)
        + ",A,"@
        + place_text(values.latitude, 2, "N"@, "S"@, write)
        + ","@
        + place_text(values.longitude, 3, "E"@, "W"@, write)
        + ","@
        + write(tenths(kn(values.sog_mps)))
        + ","@
        + write(tenths(deg(num(values.cog_rad))))
        + ","@
        + padded(at.date.day as nat, 2)
        + padded(at.date.month as nat, 2)
        + padded((at.date.year % 100) as nat, 2)
        + ","@
        + write(tenths(deg(num(values.magnetic_variation_rad).absolute())))
        + ","@
        + variation_side(values)
        + ",A"@);
}

/// GGA reads: time, position, and a fix with eight satellites.
#[verifier::spinoff_prover]
pub proof fn gga_reads(
    values: SimulatedValues,
    talker: Seq<char>,
    at: Moment,
    write: spec_fn(PieceView) -> Seq<char>,
)
    ensures
        rendered(gga_pieces(values, talker, at), write) == talker
            + "GGA,"@
            + time_text(at, write)
            + ","@
            + place_text(values.latitude, 2, "N"@, "S"@, write)
            + ","@
            + place_text(values.longitude, 3, "E"@, "W"@, write)
            + ",1,08,1.2,0.0,M,0.0,M,,"@,
{
    broadcast use pieces_read_on;

    first_piece_reads(talker, write);
    let p0 = seq![PieceView::Text(talker)].push(PieceView::Text("GGA,"@));
    let p1 = with_time(p0, at).push(PieceView::Text(","@));
    position_reads(p1, values, write);
    assert(rendered(p1, write) =~= talker + "GGA,"@ + time_text(at, write) + ","@);
    assert(rendered(gga_pieces(values, talker, at), write) =~= talker
        + "GGA,"@
        + time_text(at, write)
        + ","@
        + place_text(values.latitude, 2, "N"@, "S"@, write)
        + ","@
        + place_text(values.longitude, 3, "E"@, "W"@, write)
        + ",1,08,1.2,0.0,M,0.0,M,,"@);
}

/// HDG reads: the magnetic heading, and the variation with its side.
#[verifier::spinoff_prover]
pub proof fn hdg_reads(
    values: SimulatedValues,
    talker: Seq<char>,
    write: spec_fn(PieceView) -> Seq<char>,
)
    ensures
        rendered(hdg_pieces(values, talker), write) == talker
            + "HDG,"@
            + write(tenths(deg(num(values.heading_magnetic_rad))))
            + ",,,,"@
            + write(tenths(deg(num(values.magnetic_variation_rad).absolute())))
            + ","@
            + variation_side(values),
{
    broadcast use pieces_read_on;

    first_piece_reads(talker, write);
    assert(rendered(hdg_pieces(values, talker), write) =~= talker
        + "HDG,"@
        + write(tenths(deg(num(values.heading_magnetic_rad))))
        + ",,,,"@
        + write(tenths(deg(num(values.magnetic_variation_rad).absolute())))
        + ","@
        + variation_side(values));
}

/// VHW reads: the true heading, the magnetic one, and the speed through water in knots and
/// kilometres per hour.
#[verifier::spinoff_prover]
pub proof fn vhw_reads(
    values: SimulatedValues,
    talker: Seq<char>,
    write: spec_fn(PieceView) -> Seq<char>,
)
    ensures
        rendered(vhw_pieces(values, talker), write) == talker
            + "VHW,"@
            + write(tenths(deg(
                num(values.heading_magnetic_rad).plus(num(values.magnetic_variation_rad)).rem_euclid(
                    lit(TAU),
                ),
            )))
            + ",T,"@
            + write(tenths(deg(num(values.heading_magnetic_rad))))
            + ",M,"@
            + write(tenths(kn(values.stw_mps)))
            + ",N,"@
            + write(tenths(num(values.stw_mps).times(lit(KMH_PER_MS))))
            + ",K"@,
{
    broadcast use pieces_read_on;

    first_piece_reads(talker, write);
    assert(rendered(vhw_pieces(values, talker), write) =~= talker
        + "VHW,"@
        + write(tenths(deg(
                num(values.heading_magnetic_rad).plus(num(values.magnetic_variation_rad)).rem_euclid(
                    lit(TAU),
                ),
            )))
        + ",T,"@
        + write(tenths(deg(num(values.heading_magnetic_rad))))
        + ",M,"@
        + write(tenths(kn(values.stw_mps)))
        + ",N,"@
        + write(tenths(num(values.stw_mps).times(lit(KMH_PER_MS))))
        + ",K"@);
}

/// MWV reads: angle and speed of the apparent wind.
#[verifier::spinoff_prover]
pub proof fn mwv_reads(
    values: SimulatedValues,
    talker: Seq<char>,
    write: spec_fn(PieceView) -> Seq<char>,
)
    ensures
        rendered(mwv_pieces(values, talker), write) == talker
            + "MWV,"@
            + write(tenths(deg(num(values.wind_angle_apparent_rad))))
            + ",R,"@
            + write(tenths(kn(values.wind_speed_apparent_mps)))
            + ",N,A"@,
{
    broadcast use pieces_read_on;

    first_piece_reads(talker, write);
    assert(rendered(mwv_pieces(values, talker), write) =~= talker
        + "MWV,"@
        + write(tenths(deg(num(values.wind_angle_apparent_rad))))
        + ",R,"@
        + write(tenths(kn(values.wind_speed_apparent_mps)))
        + ",N,A"@);
}

/// DBT reads: the depth in feet, metres and fathoms.
#[verifier::spinoff_prover]
pub proof fn dbt_reads(
    values: SimulatedValues,
    talker: Seq<char>,
    write: spec_fn(PieceView) -> Seq<char>,
)
    ensures
        rendered(dbt_pieces(values, talker), write) == talker
            + "DBT,"@
            + write(tenths(num(values.depth_below_transducer_m).times(lit(FEET_PER_METER))))
            + ",f,"@
            + write(tenths(num(values.depth_below_transducer_m)))
            + ",M,"@
            + write(tenths(num(values.depth_below_transducer_m).times(lit(FATHOMS_PER_METER))))
            + ",F"@,
{
    broadcast use pieces_read_on;

    first_piece_reads(talker, write);
    assert(rendered(dbt_pieces(values, talker), write) =~= talker
        + "DBT,"@
        + write(tenths(num(values.depth_below_transducer_m).times(lit(FEET_PER_METER))))
        + ",f,"@
        + write(tenths(num(values.depth_below_transducer_m)))
        + ",M,"@
        + write(tenths(num(values.depth_below_transducer_m).times(lit(FATHOMS_PER_METER))))
        + ",F"@);
}

/// MTW reads: the water temperature in degrees Celsius.
#[verifier::spinoff_prover]
pub proof fn mtw_reads(
    values: SimulatedValues,
    talker: Seq<char>,
    write: spec_fn(PieceView) -> Seq<char>,
)
    ensures
        rendered(mtw_pieces(values, talker), write) == talker
            + "MTW,"@
            + write(tenths(num(values.water_temperature_k).minus(lit(KELVIN_OFFSET))))
            + ",C"@,
{
    broadcast use pieces_read_on;

    first_piece_reads(talker, write);
    assert(rendered(mtw_pieces(values, talker), write) =~= talker
        + "MTW,"@
        + write(tenths(num(values.water_temperature_k).minus(lit(KELVIN_OFFSET))))
        + ",C"@);
}

/// MDA reads: pressure in bar, air temperature in degrees Celsius, humidity in per cent.
#[verifier::spinoff_prover]
pub proof fn mda_reads(
    values: SimulatedValues,
    talker: Seq<char>,
    write: spec_fn(PieceView) -> Seq<char>,
)
    ensures
        rendered(mda_pieces(values, talker), write) == talker
            + "MDA,,I,"@
            + write(
            PieceView::Number {
                value: num(values.pressure_pa).over(lit(BAR_TO_PA)),
                decimals: 4,
                width: 0,
            },
        )
            + ",B,"@
            + write(tenths(num(values.air_temperature_k).minus(lit(KELVIN_OFFSET))))
            + ",C,,,"@
            + write(tenths(num(values.humidity_ratio).times(lit(HUNDRED))))
            + ",,,,,,,,,"@,
{
    broadcast use pieces_read_on;

    first_piece_reads(talker, write);
    assert(rendered(mda_pieces(values, talker), write) =~= talker
        + "MDA,,I,"@
        + write(
            PieceView::Number {
                value: num(values.pressure_pa).over(lit(BAR_TO_PA)),
                decimals: 4,
                width: 0,
            },
        )
        + ",B,"@
        + write(tenths(num(values.air_temperature_k).minus(lit(KELVIN_OFFSET))))
        + ",C,,,"@
        + write(tenths(num(values.humidity_ratio).times(lit(HUNDRED))))
        + ",,,,,,,,,"@);
}

/// XDR reads: pitch and roll in degrees.
#[verifier::spinoff_prover]
pub proof fn xdr_reads(
    values: SimulatedValues,
    talker: Seq<char>,
    write: spec_fn(PieceView) -> Seq<char>,
)
    ensures
        rendered(xdr_pieces(values, talker), write) == talker
            + "XDR,A,"@
            + write(tenths(deg(num(values.pitch_rad))))
            + ",D,PITCH,A,"@
            + write(tenths(deg(num(values.roll_rad))))
            + ",D,ROLL"@,
{
    broadcast use pieces_read_on;

    first_piece_reads(talker, write);
    assert(rendered(xdr_pieces(values, talker), write) =~= talker
        + "XDR,A,"@
        + write(tenths(deg(num(values.pitch_rad))))
        + ",D,PITCH,A,"@
        + write(tenths(deg(num(values.roll_rad))))
        + ",D,ROLL"@);
}

/// A step sends RMC, GGA, HDG and VHW, then MWV, DBT, MTW and MDA if the environment is wanted, and
/// XDR at the end.
pub proof fn step_sends_its_sentences(
    values: SimulatedValues,
    talker: Seq<char>,
    enable_environment: bool,
    at: Moment,
)
    ensures
        step_sentences(values, talker, enable_environment, at) == seq![
            rmc_pieces(values, talker, at),
            gga_pieces(values, talker, at),
            hdg_pieces(values, talker),
            vhw_pieces(values, talker),
        ] + (if enable_environment {
            seq![
                mwv_pieces(values, talker),
                dbt_pieces(values, talker),
                mtw_pieces(values, talker),
                mda_pieces(values, talker),
            ]
        } else {
            Seq::empty()
        }) + seq![xdr_pieces(values, talker)],
{
    assert(step_sentences(values, talker, enable_environment, at) =~= seq![
        rmc_pieces(values, talker, at),
        gga_pieces(values, talker, at),
        hdg_pieces(values, talker),
        vhw_pieces(values, talker),
    ] + (if enable_environment {
        seq![
            mwv_pieces(values, talker),
            dbt_pieces(values, talker),
            mtw_pieces(values, talker),
            mda_pieces(values, talker),
        ]
    } else {
        Seq::empty()
    }) + seq![xdr_pieces(values, talker)]);
}

} // verus!
