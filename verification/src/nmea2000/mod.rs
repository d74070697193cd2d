//! NMEA 2000 input: decoded messages and what they report under Signal K paths.
pub mod environment;
pub mod laws;
pub mod navigation;
pub mod propulsion;
pub mod vessels;

use crate::nmea2000::environment::{
    from_temperature, from_wind_data, temperature_entries, wind_data_entries, Temperature,
    WindData,
};
use crate::nmea2000::navigation::{
    attitude_entries, cog_sog_rapid_entries, cross_track_error_entries, distance_log_entries,
    from_attitude, from_cog_sog_rapid, from_cross_track_error, from_distance_log,
    from_gnss_position, from_position_rapid, from_rate_of_turn, from_speed, from_time_date,
    from_vessel_heading, from_water_depth, gnss_position_entries, position_rapid_entries,
    rate_of_turn_entries, speed_entries, time_date_entries, vessel_heading_entries, Attitude,
    CogSogRapidUpdate, CrossTrackError, DistanceLog, GnssPositionData, PositionRapidUpdate,
    RateOfTurn, Speed, TimeDate, VesselHeading, WaterDepth,
};
use crate::nmea2000::propulsion::{
    battery_status_entries, engine_dynamic_entries, engine_rapid_entries, from_battery_status,
    from_engine_dynamic, from_engine_rapid, from_rudder, rudder_entries, BatteryStatus,
    EngineParametersDynamic, EngineParametersRapidUpdate, Rudder,
};
use crate::nmea2000::vessels::{
    ais_class_a_position_contact, ais_class_a_static_contact, ais_class_b_extended_contact,
    ais_class_b_position_contact, ais_static_24a_contact, ais_static_24b_contact,
    contact_delta, from_ais_class_a_position, from_ais_class_a_static,
    from_ais_class_b_extended, from_ais_class_b_position, from_ais_static_24a,
    from_ais_static_24b, AisClassAPositionReport, AisClassAStaticAndVoyageRelatedData,
    AisClassBExtendedPositionReport, AisClassBPositionReport, AisClassBStaticDataMsg24PartA,
    AisClassBStaticDataMsg24PartB,
};
use crate::sentences::depth::depth_entries;
use crate::signalk::{
    entries, nmea2000_source, opt_delta, self_delta_view, Delta, DeltaView, Entry, PathValue,
    Source,
};
use crate::text::equal;
use vstd::prelude::*;

verus! {

// ---------------------------------------------------------------------------
// Configuration
// ---------------------------------------------------------------------------

/// Configuration of the NMEA 2000 input.
#[derive(Debug, Clone)]
pub struct N2kConfig {
    /// CAN interface, or serial port for slcan and actisense.
    pub interface: String,
    /// Transport: socketcan, slcan or actisense.
    pub transport: String,
    /// Source label of the deltas.
    pub source_label: String,
}

impl Default for N2kConfig {
    fn default() -> (r: Self)
        ensures
            r.interface@ == "can0"@,
            r.transport@ == "socketcan"@,
            r.source_label@ == "nmea2000"@,
    {
        N2kConfig {
            interface: default_interface(),
            transport: default_transport(),
            source_label: default_n2k_source_label(),
        }
    }
}

pub fn default_interface() -> (r: String)
    ensures
        r@ == "can0"@,
{
    "can0".to_string()
}

pub fn default_transport() -> (r: String)
    ensures
        r@ == "socketcan"@,
{
    "socketcan".to_string()
}

pub fn default_n2k_source_label() -> (r: String)
    ensures
        r@ == "nmea2000"@,
{
    "nmea2000".to_string()
}

/// How the bus is reached.
#[derive(Debug, Clone, Copy, PartialEq, Eq, Structural)]
pub enum Transport {
    SocketCan,
    Slcan,
    Actisense,
}

/// The transport of a name: SocketCAN for any name that is not known.
pub open spec fn transport_named(name: Seq<char>) -> Transport {
    if name == "slcan"@ {
        Transport::Slcan
    } else if name == "actisense"@ {
        Transport::Actisense
    } else {
        Transport::SocketCan
    }
}

/// The transport of a name: SocketCAN for any name that is not known.
pub fn choose_transport(name: &str) -> (r: Transport)
    ensures
        r == transport_named(name@),
{
    if equal(name, "slcan") {
        Transport::Slcan
    } else if equal(name, "actisense") {
        Transport::Actisense
    } else {
        Transport::SocketCan
    }
}

/// Why a read failed.
#[derive(Debug, Clone, Copy, PartialEq, Eq, Structural)]
pub enum ReadErrorKind {
    NotFound,
    PermissionDenied,
    Other,
}

/// A failed read ends the connection: the interface is gone or may not be read. Error 19
/// is ENODEV, 6 is ENXIO. After any other error reading goes on.
#[verifier::allow_in_spec]
pub fn is_fatal(kind: ReadErrorKind, os_error: Option<i32>) -> (r: bool)
    returns
        (kind == ReadErrorKind::NotFound || kind == ReadErrorKind::PermissionDenied || os_error
            == Some(19i32) || os_error == Some(6i32)),
{
    match kind {
        ReadErrorKind::NotFound => true,
        ReadErrorKind::PermissionDenied => true,
        ReadErrorKind::Other => match os_error {
            Some(n) => n == 19 || n == 6,
            None => false,
        },
    }
}

// ---------------------------------------------------------------------------
// Messages
// ---------------------------------------------------------------------------

/// Where a message comes from.
#[derive(Debug, Clone, Copy)]
pub struct N2kSource<'a> {
    pub label: &'a str,
    pub src: u8,
    pub pgn: u32,
}

pub fn make_source(s: &N2kSource<'_>) -> (r: Source)
    ensures
        r@ == nmea2000_source(s.label@, s.src, s.pgn),
{
    Source::nmea2000(s.label, s.src, s.pgn)
}

/// The delta of the own vessel with the given values, if there are any.
pub open spec fn self_delta_of(values: Seq<Entry>, source: N2kSource<'_>) -> Option<DeltaView> {
    if values.len() == 0 {
        None
    } else {
        Some(self_delta_view(nmea2000_source(source.label@, source.src, source.pgn), values))
    }
}

/// The delta of the own vessel with the given values, if there are any.
pub fn self_delta(values: Vec<PathValue>, source: &N2kSource<'_>) -> (r: Option<Delta>)
    ensures
        opt_delta(r) == self_delta_of(entries(values@), *source),
{
    assert(entries(values@).len() == values@.len());
    if values.len() == 0 {
        None
    } else {
        Some(Delta::self_vessel(make_source(source), values))
    }
}

/// A decoded message.
#[derive(Debug)]
pub enum DecodedMessage {
    VesselHeading(VesselHeading),
    Speed(Speed),
    WaterDepth(WaterDepth),
    PositionRapidUpdate(PositionRapidUpdate),
    CogSogRapidUpdate(CogSogRapidUpdate),
    GnssPositionData(GnssPositionData),
    RateOfTurn(RateOfTurn),
    Attitude(Attitude),
    DistanceLog(DistanceLog),
    TimeDate(TimeDate),
    CrossTrackError(CrossTrackError),
    WindData(WindData),
    Temperature(Temperature),
    Rudder(Rudder),
    EngineParametersRapidUpdate(EngineParametersRapidUpdate),
    EngineParametersDynamic(EngineParametersDynamic),
    BatteryStatus(BatteryStatus),
    AisClassAPositionReport(AisClassAPositionReport),
    AisClassBPositionReport(AisClassBPositionReport),
    AisClassBExtendedPositionReport(AisClassBExtendedPositionReport),
    AisClassAStaticAndVoyageRelatedData(AisClassAStaticAndVoyageRelatedData),
    AisClassBStaticDataMsg24PartA(AisClassBStaticDataMsg24PartA),
    AisClassBStaticDataMsg24PartB(AisClassBStaticDataMsg24PartB),
    /// A message of another kind.
    Other,
}

/// The delta of a message, if it is of a kind that is understood and says something.
pub open spec fn message_delta(msg: DecodedMessage, source: N2kSource<'_>) -> Option<DeltaView> {
    match msg {
        DecodedMessage::VesselHeading(m) => self_delta_of(vessel_heading_entries(m), source),
        DecodedMessage::Speed(m) => self_delta_of(speed_entries(m), source),
        DecodedMessage::WaterDepth(m) => self_delta_of(depth_entries(m.depth, m.offset), source),
        DecodedMessage::PositionRapidUpdate(m) => self_delta_of(position_rapid_entries(m), source),
        DecodedMessage::CogSogRapidUpdate(m) => self_delta_of(cog_sog_rapid_entries(m), source),
        DecodedMessage::GnssPositionData(m) => self_delta_of(gnss_position_entries(m), source),
        DecodedMessage::RateOfTurn(m) => self_delta_of(rate_of_turn_entries(m), source),
        DecodedMessage::Attitude(m) => self_delta_of(attitude_entries(m), source),
        DecodedMessage::DistanceLog(m) => self_delta_of(distance_log_entries(m), source),
        DecodedMessage::TimeDate(m) => self_delta_of(time_date_entries(m), source),
        DecodedMessage::CrossTrackError(m) => self_delta_of(cross_track_error_entries(m), source),
        DecodedMessage::WindData(m) => self_delta_of(wind_data_entries(m), source),
        DecodedMessage::Temperature(m) => self_delta_of(temperature_entries(m), source),
        DecodedMessage::Rudder(m) => self_delta_of(rudder_entries(m), source),
        DecodedMessage::EngineParametersRapidUpdate(m) => self_delta_of(
            engine_rapid_entries(m),
            source,
        ),
        DecodedMessage::EngineParametersDynamic(m) => self_delta_of(
            engine_dynamic_entries(m),
            source,
        ),
        DecodedMessage::BatteryStatus(m) => self_delta_of(battery_status_entries(m), source),
        DecodedMessage::AisClassAPositionReport(m) => contact_delta(
            m.user_id,
            ais_class_a_position_contact(m),
            source,
        ),
        DecodedMessage::AisClassBPositionReport(m) => contact_delta(
            m.user_id,
            ais_class_b_position_contact(m),
            source,
        ),
        DecodedMessage::AisClassBExtendedPositionReport(m) => contact_delta(
            m.user_id,
            ais_class_b_extended_contact(m),
            source,
        ),
        DecodedMessage::AisClassAStaticAndVoyageRelatedData(m) => contact_delta(
            m.user_id,
            ais_class_a_static_contact(m),
            source,
        ),
        DecodedMessage::AisClassBStaticDataMsg24PartA(m) => contact_delta(
            m.user_id,
            ais_static_24a_contact(m),
            source,
        ),
        DecodedMessage::AisClassBStaticDataMsg24PartB(m) => contact_delta(
            m.user_id,
            ais_static_24b_contact(m),
            source,
        ),
        DecodedMessage::Other => None,
    }
}

/// The delta of a message, if it is of a kind that is understood and says something.
pub fn decoded_to_delta(msg: &DecodedMessage, source: &N2kSource<'_>) -> (r: Option<Delta>)
    ensures
        opt_delta(r) == message_delta(*msg, *source),
{
    match msg {
        DecodedMessage::VesselHeading(m) => from_vessel_heading(m, source),
        DecodedMessage::Speed(m) => from_speed(m, source),
        DecodedMessage::WaterDepth(m) => from_water_depth(m, source),
        DecodedMessage::PositionRapidUpdate(m) => from_position_rapid(m, source),
        DecodedMessage::CogSogRapidUpdate(m) => from_cog_sog_rapid(m, source),
        DecodedMessage::GnssPositionData(m) => from_gnss_position(m, source),
        DecodedMessage::RateOfTurn(m) => from_rate_of_turn(m, source),
        DecodedMessage::Attitude(m) => from_attitude(m, source),
        DecodedMessage::DistanceLog(m) => from_distance_log(m, source),
        DecodedMessage::TimeDate(m) => from_time_date(m, source),
        DecodedMessage::CrossTrackError(m) => from_cross_track_error(m, source),
        DecodedMessage::WindData(m) => from_wind_data(m, source),
        DecodedMessage::Temperature(m) => from_temperature(m, source),
        DecodedMessage::Rudder(m) => from_rudder(m, source),
        DecodedMessage::EngineParametersRapidUpdate(m) => from_engine_rapid(m, source),
        DecodedMessage::EngineParametersDynamic(m) => from_engine_dynamic(m, source),
        DecodedMessage::BatteryStatus(m) => from_battery_status(m, source),
        DecodedMessage::AisClassAPositionReport(m) => from_ais_class_a_position(m, source),
        DecodedMessage::AisClassBPositionReport(m) => from_ais_class_b_position(m, source),
        DecodedMessage::AisClassBExtendedPositionReport(m) => from_ais_class_b_extended(m, source),
        DecodedMessage::AisClassAStaticAndVoyageRelatedData(m) => from_ais_class_a_static(
            m,
            source,
        ),
        DecodedMessage::AisClassBStaticDataMsg24PartA(m) => from_ais_static_24a(m, source),
        DecodedMessage::AisClassBStaticDataMsg24PartB(m) => from_ais_static_24b(m, source),
        DecodedMessage::Other => None,
    }
}

} // verus!
