//! What a message reports under each path.
use crate::clock::{is_at, moments_are_unique, text_view, CalendarDate, ClockTime};
use crate::contact::{opt_chars, state_text, ContactView};
use crate::contact_laws::{
    contact_reports_its_motion, contact_reports_its_particulars, member_shown,
};
use crate::expr::{lit, Expr};
use crate::ideal::ideal;
use crate::nmea2000::environment::{
    temperature_entries, wind_data_entries, Temperature, TemperatureSource, WindData, WindReference,
};
use crate::nmea2000::navigation::{
    attitude_entries, cog_sog_rapid_entries, cross_track_error_entries, distance_log_entries,
    gnss_position_entries, position_rapid_entries, rate_of_turn_entries, speed_entries,
    time_date_entries, vessel_heading_entries, Attitude, CogSogRapidUpdate, CrossTrackError,
    DirectionReference, DistanceLog, GnssPositionData, PositionRapidUpdate, RateOfTurn, Speed,
    TimeDate, VesselHeading, WaterDepth,
};
use crate::nmea2000::propulsion::{
    battery_status_entries, engine_dynamic_entries, engine_rapid_entries, rudder_entries,
    BatteryStatus, EngineParametersDynamic, EngineParametersRapidUpdate, Rudder,
};
use crate::nmea2000::vessels::{
    ais_class_a_position_contact, ais_class_a_static_contact, ais_class_b_extended_contact,
    ais_class_b_position_contact, ais_static_24a_contact, ais_static_24b_contact,
    AisClassAPositionReport, AisClassAStaticAndVoyageRelatedData, AisClassBExtendedPositionReport,
    AisClassBPositionReport, AisClassBStaticDataMsg24PartA, AisClassBStaticDataMsg24PartB,
};
use crate::nmea2000::{
    is_fatal, message_delta, self_delta_of, DecodedMessage, N2kSource, ReadErrorKind,
};
use crate::number::Real;
use crate::paths::{
    as_read, group_paths, one_update_tells_all, only, place_3d_of, place_as_read,
    position_has_its_members, shown, suffixes_tell_paths_apart, text_as_read, told, under,
};
use crate::sentences::depth::depth_entries;
use crate::signalk::{nmea2000_source, DeltaView, Entry, SourceKindView, ValueView};
use crate::text::{digits, padded};
use crate::units::{SIXTY, TAU, ZERO};
use vstd::prelude::*;

verus! {

// ---------------------------------------------------------------------------
// Paths
// ---------------------------------------------------------------------------

/// The paths of the message are different ones.
#[verifier::spinoff_prover]
proof fn heading_paths_differ()
    ensures
        "navigation.headingMagnetic"@ != "navigation.headingTrue"@,
        "navigation.headingMagnetic"@ != "navigation.magneticVariation"@,
        "navigation.headingTrue"@ != "navigation.magneticVariation"@,
{
    reveal_strlit("navigation.headingMagnetic");
    reveal_strlit("navigation.headingTrue");
    reveal_strlit("navigation.magneticVariation");
    assert("navigation.headingMagnetic"@.len() == 26);
    assert("navigation.headingTrue"@.len() == 22);
    assert("navigation.magneticVariation"@.len() == 28);
}

/// The paths of the message are different ones.
#[verifier::spinoff_prover]
proof fn speed_paths_differ()
    ensures
        "navigation.speedOverGround"@ != "navigation.speedThroughWater"@,
{
    reveal_strlit("navigation.speedOverGround");
    reveal_strlit("navigation.speedThroughWater");
    assert("navigation.speedOverGround"@.len() == 26);
    assert("navigation.speedThroughWater"@.len() == 28);
}

/// The paths of the message are different ones.
#[verifier::spinoff_prover]
proof fn course_paths_differ()
    ensures
        "navigation.courseOverGroundMagnetic"@ != "navigation.courseOverGroundTrue"@,
        "navigation.courseOverGroundMagnetic"@ != "navigation.speedOverGround"@,
        "navigation.courseOverGroundTrue"@ != "navigation.speedOverGround"@,
{
    reveal_strlit("navigation.courseOverGroundMagnetic");
    reveal_strlit("navigation.courseOverGroundTrue");
    reveal_strlit("navigation.speedOverGround");
    assert("navigation.courseOverGroundMagnetic"@.len() == 35);
    assert("navigation.courseOverGroundTrue"@.len() == 31);
    assert("navigation.speedOverGround"@.len() == 26);
}

/// The paths of the message are different ones.
#[verifier::spinoff_prover]
proof fn distance_paths_differ()
    ensures
        "navigation.log"@ != "navigation.trip.log"@,
{
    reveal_strlit("navigation.log");
    reveal_strlit("navigation.trip.log");
    assert("navigation.log"@.len() == 14);
    assert("navigation.trip.log"@.len() == 19);
}

/// The paths of the message are different ones.
#[verifier::spinoff_prover]
proof fn attitude_paths_differ()
    ensures
        "navigation.attitude.pitch"@ != "navigation.attitude.roll"@,
        "navigation.attitude.pitch"@ != "navigation.attitude.yaw"@,
        "navigation.attitude.roll"@ != "navigation.attitude.yaw"@,
{
    reveal_strlit("navigation.attitude.pitch");
    reveal_strlit("navigation.attitude.roll");
    reveal_strlit("navigation.attitude.yaw");
    assert("navigation.attitude.pitch"@.len() == 25);
    assert("navigation.attitude.roll"@.len() == 24);
    assert("navigation.attitude.yaw"@.len() == 23);
}

/// The paths of the message are different ones.
#[verifier::spinoff_prover]
proof fn wind_paths_differ()
    ensures
        "environment.wind.angleApparent"@ != "environment.wind.angleTrueGround"@,
        "environment.wind.angleApparent"@ != "environment.wind.angleTrueWater"@,
        "environment.wind.angleApparent"@ != "environment.wind.speedApparent"@,
        "environment.wind.angleApparent"@ != "environment.wind.speedTrue"@,
        "environment.wind.angleTrueGround"@ != "environment.wind.angleTrueWater"@,
        "environment.wind.angleTrueGround"@ != "environment.wind.speedApparent"@,
        "environment.wind.angleTrueGround"@ != "environment.wind.speedTrue"@,
        "environment.wind.angleTrueWater"@ != "environment.wind.speedApparent"@,
        "environment.wind.angleTrueWater"@ != "environment.wind.speedTrue"@,
        "environment.wind.speedApparent"@ != "environment.wind.speedTrue"@,
{
    reveal_strlit("environment.wind.angleApparent");
    reveal_strlit("environment.wind.angleTrueGround");
    reveal_strlit("environment.wind.angleTrueWater");
    reveal_strlit("environment.wind.speedApparent");
    reveal_strlit("environment.wind.speedTrue");
    assert("environment.wind.angleApparent"@[17] == 'a');
    assert("environment.wind.angleApparent"@.len() == 30);
    assert("environment.wind.angleTrueGround"@.len() == 32);
    assert("environment.wind.angleTrueWater"@.len() == 31);
    assert("environment.wind.speedApparent"@[17] == 's');
    assert("environment.wind.speedApparent"@.len() == 30);
    assert("environment.wind.speedTrue"@.len() == 26);
}

/// The paths of the message are different ones.
#[verifier::spinoff_prover]
proof fn temperature_paths_differ()
    ensures
        "environment.inside.mainCabinTemperature"@ != "environment.inside.temperature"@,
        "environment.inside.mainCabinTemperature"@ != "environment.outside.temperature"@,
        "environment.inside.mainCabinTemperature"@ != "environment.water.temperature"@,
        "environment.inside.temperature"@ != "environment.outside.temperature"@,
        "environment.inside.temperature"@ != "environment.water.temperature"@,
        "environment.outside.temperature"@ != "environment.water.temperature"@,
{
    reveal_strlit("environment.inside.mainCabinTemperature");
    reveal_strlit("environment.inside.temperature");
    reveal_strlit("environment.outside.temperature");
    reveal_strlit("environment.water.temperature");
    assert("environment.inside.mainCabinTemperature"@.len() == 39);
    assert("environment.inside.temperature"@.len() == 30);
    assert("environment.outside.temperature"@.len() == 31);
    assert("environment.water.temperature"@.len() == 29);
}

/// The paths of a depth are different ones.
#[verifier::spinoff_prover]
proof fn depth_paths_differ()
    ensures
        "environment.depth.belowKeel"@ != "environment.depth.belowSurface"@,
        "environment.depth.belowKeel"@ != "environment.depth.belowTransducer"@,
        "environment.depth.belowSurface"@ != "environment.depth.belowTransducer"@,
{
    reveal_strlit("environment.depth.belowKeel");
    reveal_strlit("environment.depth.belowSurface");
    reveal_strlit("environment.depth.belowTransducer");
    assert("environment.depth.belowKeel"@.len() == 27);
    assert("environment.depth.belowSurface"@.len() == 30);
    assert("environment.depth.belowTransducer"@.len() == 33);
}

/// The paths of a time are different ones.
#[verifier::spinoff_prover]
proof fn time_paths_differ()
    ensures
        "environment.time.millis"@ != "environment.time.timezoneOffset"@,
        "environment.time.millis"@ != "environment.time.timezoneRegion"@,
        "environment.time.millis"@ != "navigation.datetime"@,
        "environment.time.timezoneOffset"@ != "environment.time.timezoneRegion"@,
        "environment.time.timezoneOffset"@ != "navigation.datetime"@,
        "environment.time.timezoneRegion"@ != "navigation.datetime"@,
{
    reveal_strlit("environment.time.millis");
    reveal_strlit("environment.time.timezoneOffset");
    reveal_strlit("environment.time.timezoneRegion");
    reveal_strlit("navigation.datetime");
    assert("environment.time.millis"@.len() == 23);
    assert("environment.time.timezoneOffset"@[25] == 'O');
    assert("environment.time.timezoneOffset"@.len() == 31);
    assert("environment.time.timezoneRegion"@[25] == 'R');
    assert("environment.time.timezoneRegion"@.len() == 31);
    assert("navigation.datetime"@.len() == 19);
}

/// The values of an engine have different names.
#[verifier::spinoff_prover]
proof fn engine_suffixes_differ()
    ensures
        ".alternatorVoltage"@ != ".coolantTemperature"@,
        ".alternatorVoltage"@ != ".oilPressure"@,
        ".alternatorVoltage"@ != ".oilTemperature"@,
        ".coolantTemperature"@ != ".oilPressure"@,
        ".coolantTemperature"@ != ".oilTemperature"@,
        ".oilPressure"@ != ".oilTemperature"@,
{
    reveal_strlit(".alternatorVoltage");
    reveal_strlit(".coolantTemperature");
    reveal_strlit(".oilPressure");
    reveal_strlit(".oilTemperature");
    assert(".alternatorVoltage"@.len() == 18);
    assert(".coolantTemperature"@.len() == 19);
    assert(".oilPressure"@.len() == 12);
    assert(".oilTemperature"@.len() == 15);
}

/// The values of a battery have different names.
#[verifier::spinoff_prover]
proof fn battery_suffixes_differ()
    ensures
        ".current"@ != ".temperature"@,
        ".current"@ != ".voltage"@,
        ".temperature"@ != ".voltage"@,
{
    reveal_strlit(".current");
    reveal_strlit(".temperature");
    reveal_strlit(".voltage");
    assert(".current"@[1] == 'c');
    assert(".current"@.len() == 8);
    assert(".temperature"@.len() == 12);
    assert(".voltage"@[1] == 'v');
    assert(".voltage"@.len() == 8);
}

// ---------------------------------------------------------------------------
// The own vessel
// ---------------------------------------------------------------------------

/// A depth message reports the depth below the transducer; with an offset also the sum of
/// both, below the surface for an offset of zero or more and below the keel for a negative one.
pub proof fn depth_message_is_reported(m: WaterDepth, source: N2kSource<'_>)
    ensures
        ({
            let d = message_delta(DecodedMessage::WaterDepth(m), source);
            &&& told(d, "environment.depth.belowTransducer"@) == as_read(m.depth)
            &&& told(d, "environment.depth.belowSurface"@) == (match (m.depth, m.offset) {
                (Some(depth), Some(offset)) => if (Real { bits: ZERO }).le(offset) {
                    only(Expr::Lit(depth).plus(Expr::Lit(offset)))
                } else {
                    Seq::empty()
                },
                _ => Seq::empty(),
            })
            &&& told(d, "environment.depth.belowKeel"@) == (match (m.depth, m.offset) {
                (Some(depth), Some(offset)) => if (Real { bits: ZERO }).le(offset) {
                    Seq::empty()
                } else {
                    only(Expr::Lit(depth).plus(Expr::Lit(offset)))
                },
                _ => Seq::empty(),
            })
        }),
{
    depth_paths_differ();
    broadcast use group_paths;

    let list = depth_entries(m.depth, m.offset);
    self_delta_tells(list, source, "environment.depth.belowTransducer"@);
    self_delta_tells(list, source, "environment.depth.belowSurface"@);
    self_delta_tells(list, source, "environment.depth.belowKeel"@);
}

/// A time message reports the moment that many days and seconds after the epoch: as Unix time
/// in milliseconds, and as the text of the date and time that it is. The zone is UTC.
pub proof fn time_message_is_reported(
    days: u16,
    seconds: u32,
    date: CalendarDate,
    time: ClockTime,
    source: N2kSource<'_>,
)
    requires
        is_at(date, time, (days * 86_400 + seconds) as i64),
    ensures
        ({
            let m = TimeDate { date: Some(days), time: Some(seconds) };
            let d = message_delta(DecodedMessage::TimeDate(m), source);
            &&& text_view(date, time) matches Some(iso) && told(d, "navigation.datetime"@) == seq![
                ValueView::Text(iso),
            ]
            &&& told(d, "environment.time.millis"@) == seq![
                ValueView::Int(((days * 86_400 + seconds) * 1000) as i64),
            ]
            &&& told(d, "environment.time.timezoneOffset"@) == seq![ValueView::Int(0)]
            &&& told(d, "environment.time.timezoneRegion"@) == seq![ValueView::Text("UTC"@)]
        }),
{
    time_paths_differ();
    broadcast use group_paths;

    let total = (days * 86_400 + seconds) as i64;
    moments_are_unique(date, time, total);
    let list = time_date_entries(TimeDate { date: Some(days), time: Some(seconds) });
    assert(total == days * 86_400 + seconds);
    self_delta_tells(list, source, "navigation.datetime"@);
    self_delta_tells(list, source, "environment.time.millis"@);
    self_delta_tells(list, source, "environment.time.timezoneOffset"@);
    self_delta_tells(list, source, "environment.time.timezoneRegion"@);
}

/// The name of an instance; the first one where none is given.
pub open spec fn instance_name(instance: Option<u64>) -> Seq<char> {
    match instance {
        Some(n) => digits(n as nat),
        None => "0"@,
    }
}

/// A fast engine message reports revolutions per minute as radians per second, below the path
/// of the engine: a whole turn per minute for each.
pub proof fn revolutions_are_reported(
    ev: spec_fn(Expr) -> real,
    m: EngineParametersRapidUpdate,
    source: N2kSource<'_>,
)
    requires
        ideal(ev),
        ev(lit(SIXTY)) == 60real,
    ensures
        ({
            let d = message_delta(DecodedMessage::EngineParametersRapidUpdate(m), source);
            let path = "propulsion."@ + instance_name(m.instance) + ".revolutions"@;
            match m.speed {
                Some(rpm) => exists|e: Expr| #[trigger]
                    only(e) == told(d, path) && ev(e) * 60real == ev(Expr::Lit(rpm)) * ev(lit(TAU)),
                None => told(d, path) == Seq::<ValueView>::empty(),
            }
        }),
{
    broadcast use group_paths;

    first_instance_is_zero();
    let list = engine_rapid_entries(m);
    let path = "propulsion."@ + instance_name(m.instance) + ".revolutions"@;
    self_delta_tells(list, source, path);
    if let Some(rpm) = m.speed {
        let e = Expr::Lit(rpm).times(lit(TAU)).over(lit(SIXTY));
        let x = ev(Expr::Lit(rpm)) * ev(lit(TAU));
        assert(ev(e) == x / 60real);
        assert(x / 60real * 60real == x) by (nonlinear_arith);
        assert(only(e) =~= told(
            message_delta(DecodedMessage::EngineParametersRapidUpdate(m), source),
            path,
        ));
    }
}

/// The first instance is called zero.
proof fn first_instance_is_zero()
    ensures
        "propulsion."@ + "0"@ == "propulsion.0"@,
        digits(0) == "0"@,
{
    reveal_strlit("propulsion.");
    reveal_strlit("propulsion.0");
    reveal_strlit("0");
    assert("propulsion."@ + "0"@ =~= "propulsion.0"@);
    reveal_with_fuel(digits, 2);
    assert(digits(0) =~= "0"@);
}

/// A slow engine message reports oil pressure, the temperatures of coolant and oil, and the
/// alternator's voltage below the path of the engine.
pub proof fn engine_message_is_reported(m: EngineParametersDynamic, source: N2kSource<'_>)
    ensures
        ({
            let d = message_delta(DecodedMessage::EngineParametersDynamic(m), source);
            let engine = "propulsion."@ + instance_name(m.instance);
            &&& told(d, engine + ".oilPressure"@) == as_read(m.oil_pressure)
            &&& told(d, engine + ".coolantTemperature"@) == as_read(m.temperature)
            &&& told(d, engine + ".oilTemperature"@) == as_read(m.oil_temperature)
            &&& told(d, engine + ".alternatorVoltage"@) == as_read(m.alternator_potential)
        }),
{
    engine_suffixes_differ();
    first_instance_is_zero();
    broadcast use group_paths;

    let engine = "propulsion."@ + instance_name(m.instance);
    suffixes_tell_paths_apart(engine, ".oilPressure"@, ".coolantTemperature"@);
    suffixes_tell_paths_apart(engine, ".oilPressure"@, ".oilTemperature"@);
    suffixes_tell_paths_apart(engine, ".oilPressure"@, ".alternatorVoltage"@);
    suffixes_tell_paths_apart(engine, ".coolantTemperature"@, ".oilTemperature"@);
    suffixes_tell_paths_apart(engine, ".coolantTemperature"@, ".alternatorVoltage"@);
    suffixes_tell_paths_apart(engine, ".oilTemperature"@, ".alternatorVoltage"@);
    let list = engine_dynamic_entries(m);
    self_delta_tells(list, source, engine + ".oilPressure"@);
    self_delta_tells(list, source, engine + ".coolantTemperature"@);
    self_delta_tells(list, source, engine + ".oilTemperature"@);
    self_delta_tells(list, source, engine + ".alternatorVoltage"@);
}

/// A battery message reports voltage, current and temperature below the path of the battery.
pub proof fn battery_message_is_reported(m: BatteryStatus, source: N2kSource<'_>)
    ensures
        ({
            let d = message_delta(DecodedMessage::BatteryStatus(m), source);
            let battery = "electrical.batteries."@ + instance_name(m.instance);
            &&& told(d, battery + ".voltage"@) == as_read(m.voltage)
            &&& told(d, battery + ".current"@) == as_read(m.current)
            &&& told(d, battery + ".temperature"@) == as_read(m.temperature)
        }),
{
    battery_suffixes_differ();
    first_instance_is_zero();
    broadcast use group_paths;

    let battery = "electrical.batteries."@ + instance_name(m.instance);
    suffixes_tell_paths_apart(battery, ".voltage"@, ".current"@);
    suffixes_tell_paths_apart(battery, ".voltage"@, ".temperature"@);
    suffixes_tell_paths_apart(battery, ".current"@, ".temperature"@);
    let list = battery_status_entries(m);
    self_delta_tells(list, source, battery + ".voltage"@);
    self_delta_tells(list, source, battery + ".current"@);
    self_delta_tells(list, source, battery + ".temperature"@);
}

/// Every message of the own vessel that says something is told of the own vessel, with the
/// source that it came from.
pub proof fn own_messages_name_their_source(values: Seq<Entry>, source: N2kSource<'_>)
    ensures
        values.len() == 0 ==> self_delta_of(values, source) is None,
        values.len() > 0 ==> (self_delta_of(values, source) matches Some(d) && d.context == Some(
            "vessels.self"@,
        ) && d.updates.len() == 1 && d.updates[0].values == values && d.updates[0].source.label
            == source.label@ && d.updates[0].source.kind == (SourceKindView::Nmea2000 {
            src: source.src,
            pgn: source.pgn,
        })),
{
}

/// The values of the own vessel's delta are those that it was made of.
pub proof fn self_delta_tells(values: Seq<Entry>, source: N2kSource<'_>, path: Seq<char>)
    ensures
        told(self_delta_of(values, source), path) == under(values, path),
{
    if values.len() == 0 {
        assert(under(values, path) =~= Seq::<ValueView>::empty());
    } else {
        one_update_tells_all(self_delta_of(values, source)->Some_0, path);
    }
}

/// A heading message reports the heading under the path of its reference, the true one without
/// a reference, and the variation under its own.
pub proof fn heading_message_is_reported(m: VesselHeading, source: N2kSource<'_>)
    ensures
        ({
            let d = message_delta(DecodedMessage::VesselHeading(m), source);
            &&& told(d, "navigation.headingMagnetic"@)
                == (if m.reference == Some(DirectionReference::Magnetic) {
                as_read(m.heading)
            } else {
                Seq::empty()
            })
            &&& told(d, "navigation.headingTrue"@)
                == (if m.reference == Some(DirectionReference::Magnetic) {
                Seq::empty()
            } else {
                as_read(m.heading)
            })
            &&& told(d, "navigation.magneticVariation"@) == as_read(m.variation)
        }),
{
    heading_paths_differ();
    broadcast use group_paths;

    let list = vessel_heading_entries(m);
    self_delta_tells(list, source, "navigation.headingMagnetic"@);
    self_delta_tells(list, source, "navigation.headingTrue"@);
    self_delta_tells(list, source, "navigation.magneticVariation"@);
}

/// A speed message reports the speed through the water and that over ground.
pub proof fn speed_message_is_reported(m: Speed, source: N2kSource<'_>)
    ensures
        ({
            let d = message_delta(DecodedMessage::Speed(m), source);
            &&& told(d, "navigation.speedThroughWater"@) == as_read(m.speed_water_referenced)
            &&& told(d, "navigation.speedOverGround"@) == as_read(m.speed_ground_referenced)
        }),
{
    speed_paths_differ();
    broadcast use group_paths;

    let list = speed_entries(m);
    self_delta_tells(list, source, "navigation.speedThroughWater"@);
    self_delta_tells(list, source, "navigation.speedOverGround"@);
}

/// A course and speed message reports the course under the path of its reference, the true one
/// without a reference, and the speed over ground.
pub proof fn course_message_is_reported(m: CogSogRapidUpdate, source: N2kSource<'_>)
    ensures
        ({
            let d = message_delta(DecodedMessage::CogSogRapidUpdate(m), source);
            &&& told(d, "navigation.courseOverGroundMagnetic"@)
                == (if m.cog_reference == Some(DirectionReference::Magnetic) {
                as_read(m.cog)
            } else {
                Seq::empty()
            })
            &&& told(d, "navigation.courseOverGroundTrue"@)
                == (if m.cog_reference == Some(DirectionReference::Magnetic) {
                Seq::empty()
            } else {
                as_read(m.cog)
            })
            &&& told(d, "navigation.speedOverGround"@) == as_read(m.sog)
        }),
{
    course_paths_differ();
    broadcast use group_paths;

    let list = cog_sog_rapid_entries(m);
    self_delta_tells(list, source, "navigation.courseOverGroundMagnetic"@);
    self_delta_tells(list, source, "navigation.courseOverGroundTrue"@);
    self_delta_tells(list, source, "navigation.speedOverGround"@);
}

/// A distance log message reports the log and the trip log, in whole metres.
pub proof fn distance_message_is_reported(m: DistanceLog, source: N2kSource<'_>)
    ensures
        ({
            let d = message_delta(DecodedMessage::DistanceLog(m), source);
            &&& told(d, "navigation.log"@) == (match m.log {
                Some(n) => seq![ValueView::Number(Expr::Uint(n))],
                None => Seq::empty(),
            })
            &&& told(d, "navigation.trip.log"@) == (match m.trip_log {
                Some(n) => seq![ValueView::Number(Expr::Uint(n))],
                None => Seq::empty(),
            })
        }),
{
    distance_paths_differ();
    broadcast use group_paths;

    let list = distance_log_entries(m);
    self_delta_tells(list, source, "navigation.log"@);
    self_delta_tells(list, source, "navigation.trip.log"@);
}

/// A position message reports latitude and longitude as a position.
pub proof fn position_message_is_reported(m: PositionRapidUpdate, source: N2kSource<'_>)
    ensures
        ({
            let d = message_delta(DecodedMessage::PositionRapidUpdate(m), source);
            &&& told(d, "navigation.position"@) == place_as_read(m.latitude, m.longitude)
        }),
{
    broadcast use group_paths;

    let list = position_rapid_entries(m);
    self_delta_tells(list, source, "navigation.position"@);
}

/// A fix reports latitude and longitude as a position, with the altitude where it is known.
pub proof fn fix_message_is_reported(m: GnssPositionData, source: N2kSource<'_>)
    ensures
        told(message_delta(DecodedMessage::GnssPositionData(m), source), "navigation.position"@)
            == (match (m.latitude, m.longitude) {
            (Some(lat), Some(lon)) => place_3d_of(
                Expr::Lit(lat),
                Expr::Lit(lon),
                match m.altitude {
                    Some(alt) => Some(Expr::Lit(alt)),
                    None => None,
                },
            ),
            _ => Seq::empty(),
        }),
{
    broadcast use group_paths;

    let list = gnss_position_entries(m);
    self_delta_tells(list, source, "navigation.position"@);
    match (m.latitude, m.longitude) {
        (Some(lat), Some(lon)) => {
            position_has_its_members(
                Expr::Lit(lat),
                Expr::Lit(lon),
                match m.altitude {
                    Some(alt) => Some(Expr::Lit(alt)),
                    None => None,
                },
            );
        },
        _ => {},
    }
}

/// A cross-track error message reports the error.
pub proof fn cross_track_message_is_reported(m: CrossTrackError, source: N2kSource<'_>)
    ensures
        ({
            let d = message_delta(DecodedMessage::CrossTrackError(m), source);
            &&& told(d, "navigation.courseGreatCircle.crossTrackError"@) == as_read(m.xte)
        }),
{
    broadcast use group_paths;

    let list = cross_track_error_entries(m);
    self_delta_tells(list, source, "navigation.courseGreatCircle.crossTrackError"@);
}

/// A rate of turn message reports the rate.
pub proof fn turn_message_is_reported(m: RateOfTurn, source: N2kSource<'_>)
    ensures
        ({
            let d = message_delta(DecodedMessage::RateOfTurn(m), source);
            &&& told(d, "navigation.rateOfTurn"@) == as_read(m.rate)
        }),
{
    broadcast use group_paths;

    let list = rate_of_turn_entries(m);
    self_delta_tells(list, source, "navigation.rateOfTurn"@);
}

/// An attitude message reports yaw, pitch and roll.
pub proof fn attitude_message_is_reported(m: Attitude, source: N2kSource<'_>)
    ensures
        ({
            let d = message_delta(DecodedMessage::Attitude(m), source);
            &&& told(d, "navigation.attitude.yaw"@) == as_read(m.yaw)
            &&& told(d, "navigation.attitude.pitch"@) == as_read(m.pitch)
            &&& told(d, "navigation.attitude.roll"@) == as_read(m.roll)
        }),
{
    attitude_paths_differ();
    broadcast use group_paths;

    let list = attitude_entries(m);
    self_delta_tells(list, source, "navigation.attitude.yaw"@);
    self_delta_tells(list, source, "navigation.attitude.pitch"@);
    self_delta_tells(list, source, "navigation.attitude.roll"@);
}

/// A rudder message reports the rudder angle.
pub proof fn rudder_message_is_reported(m: Rudder, source: N2kSource<'_>)
    ensures
        ({
            let d = message_delta(DecodedMessage::Rudder(m), source);
            &&& told(d, "steering.rudderAngle"@) == as_read(m.position)
        }),
{
    broadcast use group_paths;

    let list = rudder_entries(m);
    self_delta_tells(list, source, "steering.rudderAngle"@);
}

/// A wind message reports speed and angle under the paths of its reference: apparent, true by
/// the water or the boat, or true over ground; nothing for other references.
pub proof fn wind_message_is_reported(m: WindData, source: N2kSource<'_>)
    ensures
        ({
            let d = message_delta(DecodedMessage::WindData(m), source);
            &&& told(d, "environment.wind.speedApparent"@)
                == (if m.reference == Some(WindReference::Apparent) {
                as_read(m.wind_speed)
            } else {
                Seq::empty()
            })
            &&& told(d, "environment.wind.angleApparent"@)
                == (if m.reference == Some(WindReference::Apparent) {
                as_read(m.wind_angle)
            } else {
                Seq::empty()
            })
            &&& told(d, "environment.wind.speedTrue"@)
                == (if (m.reference == Some(WindReference::TrueBoatReferenced) || m.reference
                == Some(WindReference::TrueWaterReferenced)) || m.reference
                == Some(WindReference::TrueGroundReferencedToNorth) {
                as_read(m.wind_speed)
            } else {
                Seq::empty()
            })
            &&& told(d, "environment.wind.angleTrueWater"@)
                == (if (m.reference == Some(WindReference::TrueBoatReferenced) || m.reference
                == Some(WindReference::TrueWaterReferenced)) {
                as_read(m.wind_angle)
            } else {
                Seq::empty()
            })
            &&& told(d, "environment.wind.angleTrueGround"@)
                == (if m.reference == Some(WindReference::TrueGroundReferencedToNorth) {
                as_read(m.wind_angle)
            } else {
                Seq::empty()
            })
        }),
{
    wind_paths_differ();
    broadcast use group_paths;

    let list = wind_data_entries(m);
    self_delta_tells(list, source, "environment.wind.speedApparent"@);
    self_delta_tells(list, source, "environment.wind.angleApparent"@);
    self_delta_tells(list, source, "environment.wind.speedTrue"@);
    self_delta_tells(list, source, "environment.wind.angleTrueWater"@);
    self_delta_tells(list, source, "environment.wind.angleTrueGround"@);
}

/// A temperature message reports the temperature under the path of its source.
pub proof fn temperature_message_is_reported(m: Temperature, source: N2kSource<'_>)
    ensures
        ({
            let d = message_delta(DecodedMessage::Temperature(m), source);
            &&& told(d, "environment.water.temperature"@)
                == (if m.source == Some(TemperatureSource::SeaTemperature) {
                as_read(m.actual_temperature)
            } else {
                Seq::empty()
            })
            &&& told(d, "environment.outside.temperature"@)
                == (if m.source == Some(TemperatureSource::OutsideTemperature) {
                as_read(m.actual_temperature)
            } else {
                Seq::empty()
            })
            &&& told(d, "environment.inside.temperature"@)
                == (if m.source == Some(TemperatureSource::InsideTemperature) {
                as_read(m.actual_temperature)
            } else {
                Seq::empty()
            })
            &&& told(d, "environment.inside.mainCabinTemperature"@)
                == (if m.source == Some(TemperatureSource::MainCabinTemperature) {
                as_read(m.actual_temperature)
            } else {
                Seq::empty()
            })
        }),
{
    temperature_paths_differ();
    broadcast use group_paths;

    let list = temperature_entries(m);
    self_delta_tells(list, source, "environment.water.temperature"@);
    self_delta_tells(list, source, "environment.outside.temperature"@);
    self_delta_tells(list, source, "environment.inside.temperature"@);
    self_delta_tells(list, source, "environment.inside.mainCabinTemperature"@);
}

// ---------------------------------------------------------------------------
// Other vessels
// ---------------------------------------------------------------------------

/// A contact is told of the vessel with the MMSI, the low 32 bits of the user identifier, with
/// the source that it came from.
pub open spec fn concerns(d: Option<DeltaView>, id: u64, source: N2kSource<'_>) -> bool {
    &&& d matches Some(d)
    &&& d.context == Some("vessels.urn:mrn:imo:mmsi:"@ + padded((id as u32) as nat, 9))
    &&& d.updates.len() == 1
    &&& d.updates[0].source.label == source.label@
    &&& d.updates[0].source.kind == (SourceKindView::Nmea2000 {
        src: source.src,
        pgn: source.pgn,
    })
}

/// A length is reported where it is above zero.
pub open spec fn if_above_zero(x: Option<Real>) -> Option<Expr> {
    match x {
        Some(v) => if (Real { bits: ZERO }).lt(v) {
            Some(Expr::Lit(v))
        } else {
            None
        },
        None => None,
    }
}

/// A number as the only member of an object.
pub open spec fn member_of(key: Seq<char>, e: Option<Expr>) -> Seq<ValueView> {
    member_shown(
        key,
        match e {
            Some(e) => Some(ValueView::Number(e)),
            None => None,
        },
    )
}

/// The ship type as the only member of an object.
pub open spec fn type_of(n: Option<u64>) -> Seq<ValueView> {
    member_shown(
        "id"@,
        match n {
            Some(n) => Some(ValueView::Int((n as u8) as i64)),
            None => None,
        },
    )
}

/// A class A position report tells position, speed, course, heading and rate of turn under their
/// paths, and the status by its name. Without an MMSI it tells nothing.
pub proof fn class_a_position_is_reported(m: AisClassAPositionReport, source: N2kSource<'_>)
    ensures
        ({
            let d = message_delta(DecodedMessage::AisClassAPositionReport(m), source);
            match m.user_id {
                Some(id) => {
                    &&& concerns(d, id, source)
                    &&& told(d, "navigation.position"@) == place_as_read(m.latitude, m.longitude)
                    &&& told(d, "navigation.speedOverGround"@) == as_read(m.sog)
                    &&& told(d, "navigation.courseOverGroundTrue"@) == as_read(m.cog)
                    &&& told(d, "navigation.headingTrue"@) == as_read(m.heading)
                    &&& told(d, "navigation.rateOfTurn"@) == as_read(m.rate_of_turn)
                    &&& told(d, "navigation.state"@) == (match m.nav_status {
                        Some(n) => text_as_read(state_text(n as u8)),
                        None => Seq::empty(),
                    })
                },
                None => d is None,
            }
        }),
{
    if let Some(id) = m.user_id {
        let c = ContactView { mmsi: id as u32, ..ais_class_a_position_contact(m) };
        let s = nmea2000_source(source.label@, source.src, source.pgn);
        contact_reports_its_motion(c, s);
        contact_reports_its_particulars(c, s);
    }
}

/// A class B position report tells position, speed, course and heading under their paths.
pub proof fn class_b_position_is_reported(m: AisClassBPositionReport, source: N2kSource<'_>)
    ensures
        ({
            let d = message_delta(DecodedMessage::AisClassBPositionReport(m), source);
            match m.user_id {
                Some(id) => {
                    &&& concerns(d, id, source)
                    &&& told(d, "navigation.position"@) == place_as_read(m.latitude, m.longitude)
                    &&& told(d, "navigation.speedOverGround"@) == as_read(m.sog)
                    &&& told(d, "navigation.courseOverGroundTrue"@) == as_read(m.cog)
                    &&& told(d, "navigation.headingTrue"@) == as_read(m.heading)
                },
                None => d is None,
            }
        }),
{
    if let Some(id) = m.user_id {
        let c = ContactView { mmsi: id as u32, ..ais_class_b_position_contact(m) };
        let s = nmea2000_source(source.label@, source.src, source.pgn);
        contact_reports_its_motion(c, s);
        contact_reports_its_particulars(c, s);
    }
}

/// An extended class B report tells position, speed, course and heading, the name, the type and
/// the size of the vessel.
pub proof fn extended_class_b_is_reported(m: AisClassBExtendedPositionReport, source: N2kSource<'_>)
    ensures
        ({
            let d = message_delta(DecodedMessage::AisClassBExtendedPositionReport(m), source);
            match m.user_id {
                Some(id) => {
                    &&& concerns(d, id, source)
                    &&& told(d, "navigation.position"@) == place_as_read(m.latitude, m.longitude)
                    &&& told(d, "navigation.speedOverGround"@) == as_read(m.sog)
                    &&& told(d, "navigation.courseOverGroundTrue"@) == as_read(m.cog)
                    &&& told(d, "navigation.headingTrue"@) == as_read(m.true_heading)
                    &&& told(d, "name"@) == text_as_read(opt_chars(m.name))
                    &&& told(d, "design.aisShipType"@) == type_of(m.type_of_ship)
                    &&& told(d, "design.length"@) == member_of("overall"@, if_above_zero(m.length))
                    &&& told(d, "design.beam"@) == shown(if_above_zero(m.beam))
                },
                None => d is None,
            }
        }),
{
    if let Some(id) = m.user_id {
        let c = ContactView { mmsi: id as u32, ..ais_class_b_extended_contact(m) };
        let s = nmea2000_source(source.label@, source.src, source.pgn);
        contact_reports_its_motion(c, s);
        contact_reports_its_particulars(c, s);
    }
}

/// Static and voyage data tell name, call sign, IMO number, type, destination, draught, length
/// and beam under their paths.
pub proof fn class_a_particulars_are_reported(m: AisClassAStaticAndVoyageRelatedData,
    source: N2kSource<'_>)
    ensures
        ({
            let d = message_delta(DecodedMessage::AisClassAStaticAndVoyageRelatedData(m), source);
            match m.user_id {
                Some(id) => {
                    &&& concerns(d, id, source)
                    &&& told(d, "name"@) == text_as_read(opt_chars(m.name))
                    &&& told(d, "communication.callsignVhf"@) == text_as_read(opt_chars(m.callsign))
                    &&& told(d, "registrations.imo"@) == (match m.imo_number {
                        Some(n) => seq![ValueView::Text("IMO "@ + digits((n as u32) as nat))],
                        None => Seq::empty(),
                    })
                    &&& told(d, "design.aisShipType"@) == type_of(m.type_of_ship)
                    &&& told(d, "navigation.destination.commonName"@) == text_as_read(
                        opt_chars(m.destination),
                    )
                    &&& told(d, "design.draft"@) == member_of(
                        "maximum"@,
                        match m.draft {
                            Some(x) => Some(Expr::Lit(x)),
                            None => None,
                        },
                    )
                    &&& told(d, "design.length"@) == member_of("overall"@, if_above_zero(m.length))
                    &&& told(d, "design.beam"@) == shown(if_above_zero(m.beam))
                },
                None => d is None,
            }
        }),
{
    if let Some(id) = m.user_id {
        let c = ContactView { mmsi: id as u32, ..ais_class_a_static_contact(m) };
        let s = nmea2000_source(source.label@, source.src, source.pgn);
        contact_reports_its_motion(c, s);
        contact_reports_its_particulars(c, s);
    }
}

/// The first part of class B static data tells the name.
pub proof fn class_b_name_is_reported(m: AisClassBStaticDataMsg24PartA, source: N2kSource<'_>)
    ensures
        ({
            let d = message_delta(DecodedMessage::AisClassBStaticDataMsg24PartA(m), source);
            match m.user_id {
                Some(id) => {
                    &&& concerns(d, id, source)
                    &&& told(d, "name"@) == text_as_read(opt_chars(m.name))
                },
                None => d is None,
            }
        }),
{
    if let Some(id) = m.user_id {
        let c = ContactView { mmsi: id as u32, ..ais_static_24a_contact(m) };
        let s = nmea2000_source(source.label@, source.src, source.pgn);
        contact_reports_its_motion(c, s);
        contact_reports_its_particulars(c, s);
    }
}

/// The second part of class B static data tells call sign, type, length and beam.
pub proof fn class_b_particulars_are_reported(m: AisClassBStaticDataMsg24PartB,
    source: N2kSource<'_>)
    ensures
        ({
            let d = message_delta(DecodedMessage::AisClassBStaticDataMsg24PartB(m), source);
            match m.user_id {
                Some(id) => {
                    &&& concerns(d, id, source)
                    &&& told(d, "communication.callsignVhf"@) == text_as_read(opt_chars(m.callsign))
                    &&& told(d, "design.aisShipType"@) == type_of(m.type_of_ship)
                    &&& told(d, "design.length"@) == member_of("overall"@, if_above_zero(m.length))
                    &&& told(d, "design.beam"@) == shown(if_above_zero(m.beam))
                },
                None => d is None,
            }
        }),
{
    if let Some(id) = m.user_id {
        let c = ContactView { mmsi: id as u32, ..ais_static_24b_contact(m) };
        let s = nmea2000_source(source.label@, source.src, source.pgn);
        contact_reports_its_motion(c, s);
        contact_reports_its_particulars(c, s);
    }
}

/// Reading ends once the interface cannot be found, may not be read, or is gone by its error
/// number; whatever else happens, it goes on.
pub proof fn reading_goes_on_while_the_interface_is_there(
    kind: ReadErrorKind,
    os_error: Option<i32>,
)
    ensures
        kind is NotFound ==> is_fatal(kind, os_error),
        kind is PermissionDenied ==> is_fatal(kind, os_error),
        kind is Other ==> (is_fatal(kind, os_error) <==> (os_error matches Some(n) && (n == 6 || n
            == 19))),
{
}

} // verus!
