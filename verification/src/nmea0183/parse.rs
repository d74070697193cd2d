//! Parsing of sentences, by the `nmea` crate.
//!
//! The crate reads a sentence into a record of its own. Each wrapper below asks
//! it for one kind of sentence, or one part of it, and moves the fields that are
//! used into the library's record, floating point numbers by their bits. Which bits
//! a number has that is not a number is left open, so the wrappers speak of records
//! with one pattern for them all.
use crate::clock::{CalendarDate, ClockTime};
use crate::number::Real;
use crate::sentences::course::{BodData, BwcData};
use crate::sentences::depth::{DbkData, DbsData, DptData};
use crate::sentences::environment::{MdaData, MtwData};
use crate::sentences::gnss::{GnsData, GnsNavigationStatus, GsaData, ZdaData};
use crate::sentences::heading::{HdtData, VhwData};
use crate::sentences::position::{
    FixType, GgaData, GllData, RmcData, RmcStatusOfFix, VtgData,
};
use crate::sentences::wind::{MwvData, MwvReference, MwvWindSpeedUnits};
use chrono::{Datelike, Timelike};
use nmea::sentences::{self, gns, mwv, rmc};
use nmea::{ParseResult, SentenceType};
use vstd::prelude::*;

verus! {

/// A sentence of a kind that the parser reads and that is used.
#[derive(Debug, Clone, Copy)]
pub enum Parsed {
    Rmc(RmcData),
    Gga(GgaData),
    Vtg(VtgData),
    Hdt(HdtData),
    Mwv(MwvData),
    Dpt(DptData),
    Vhw(VhwData),
    Mtw(MtwData),
    Mda(MdaData),
    Gll(GllData),
    Dbk(DbkData),
    Bwc(BwcData),
    Bod(BodData),
    Gsa(GsaData),
    Gns(GnsData),
    Zda(ZdaData),
    /// A DBS sentence, of which the parser reads no fields.
    Dbs,
}

/// The letters of the word `nan` stand at a place of a text, in upper or lower case.
pub open spec fn nan_at(raw: Seq<char>, i: int) -> bool {
    &&& 0 <= i
    &&& i + 3 <= raw.len()
    &&& raw[i] == 'n' || raw[i] == 'N'
    &&& raw[i + 1] == 'a' || raw[i + 1] == 'A'
    &&& raw[i + 2] == 'n' || raw[i + 2] == 'N'
}

/// A field has the word `nan` after four letters: a time whose seconds are not a number.
/// The parser takes such a time or not by the sign bit of that number, which nothing fixes.
pub open spec fn nan_time(raw: Seq<char>) -> bool {
    exists|i: int| 5 <= i && raw[i - 5] == ',' && #[trigger] nan_at(raw, i)
}

/// The sentence that `nmea::parse_str` reads from a text, where it is of a kind that is used,
/// with one bit pattern for all that are not a number.
pub uninterp spec fn nmea_parsed(raw: Seq<char>) -> Option<Parsed>;

/// The depths that `nmea::sentences::parse_dbs` reads from a text, with one bit pattern for
/// all that are not a number.
pub uninterp spec fn dbs_parsed(raw: Seq<char>) -> Option<DbsData>;

/// What the parser may read from a text: one thing, but where the seconds of a time are not a
/// number.
pub open spec fn reads_as(raw: Seq<char>, parsed: Option<Parsed>) -> bool {
    nan_time(raw) || parsed == nmea_parsed(raw)
}

/// Wraps `nmea::parse_str` for a VTG sentence: its fields, if the text is such a sentence.
#[verifier::external_body]
fn parsed_vtg(raw: &str) -> (r: Option<VtgData>)
    ensures
        (match r {
            Some(x) => Some(x.canonical()),
            None => None,
        }) == (match nmea_parsed(raw@) {
            Some(Parsed::Vtg(d)) => Some(d),
            _ => None,
        }),
{
    match nmea::parse_str(raw) {
        Ok(ParseResult::VTG(d)) => Some(
            VtgData {
                true_course: d.true_course.map(|x| x.to_bits()),
                speed_over_ground: d.speed_over_ground.map(|x| x.to_bits()),
            },
        ),
        _ => None,
    }
}

/// Wraps `nmea::parse_str` for an HDT sentence: its fields, if the text is such a sentence.
#[verifier::external_body]
fn parsed_hdt(raw: &str) -> (r: Option<HdtData>)
    ensures
        (match r {
            Some(x) => Some(x.canonical()),
            None => None,
        }) == (match nmea_parsed(raw@) {
            Some(Parsed::Hdt(d)) => Some(d),
            _ => None,
        }),
{
    match nmea::parse_str(raw) {
        Ok(ParseResult::HDT(d)) => Some(
            HdtData {
                heading: d.heading.map(|x| x.to_bits()),
            },
        ),
        _ => None,
    }
}

/// Wraps `nmea::parse_str` for a DPT sentence: its fields, if the text is such a sentence.
#[verifier::external_body]
fn parsed_dpt(raw: &str) -> (r: Option<DptData>)
    ensures
        (match r {
            Some(x) => Some(x.canonical()),
            None => None,
        }) == (match nmea_parsed(raw@) {
            Some(Parsed::Dpt(d)) => Some(d),
            _ => None,
        }),
{
    match nmea::parse_str(raw) {
        Ok(ParseResult::DPT(d)) => Some(
            DptData {
                water_depth: d.water_depth.map(|x| Real { bits: x.to_bits() }),
                offset: d.offset.map(|x| Real { bits: x.to_bits() }),
            },
        ),
        _ => None,
    }
}

/// Wraps `nmea::parse_str` for a VHW sentence: its fields, if the text is such a sentence.
#[verifier::external_body]
fn parsed_vhw(raw: &str) -> (r: Option<VhwData>)
    ensures
        (match r {
            Some(x) => Some(x.canonical()),
            None => None,
        }) == (match nmea_parsed(raw@) {
            Some(Parsed::Vhw(d)) => Some(d),
            _ => None,
        }),
{
    match nmea::parse_str(raw) {
        Ok(ParseResult::VHW(d)) => Some(
            VhwData {
                heading_true: d.heading_true.map(|x| Real { bits: x.to_bits() }),
                heading_magnetic: d.heading_magnetic.map(|x| Real { bits: x.to_bits() }),
                relative_speed_knots: d.relative_speed_knots.map(|x| Real { bits: x.to_bits() }),
            },
        ),
        _ => None,
    }
}

/// Wraps `nmea::parse_str` for an MTW sentence: its fields, if the text is such a sentence.
#[verifier::external_body]
fn parsed_mtw(raw: &str) -> (r: Option<MtwData>)
    ensures
        (match r {
            Some(x) => Some(x.canonical()),
            None => None,
        }) == (match nmea_parsed(raw@) {
            Some(Parsed::Mtw(d)) => Some(d),
            _ => None,
        }),
{
    match nmea::parse_str(raw) {
        Ok(ParseResult::MTW(d)) => Some(
            MtwData {
                temperature: d.temperature.map(|x| Real { bits: x.to_bits() }),
            },
        ),
        _ => None,
    }
}

/// Wraps `nmea::parse_str` for an MDA sentence: its fields, if the text is such a sentence.
#[verifier::external_body]
fn parsed_mda(raw: &str) -> (r: Option<MdaData>)
    ensures
        (match r {
            Some(x) => Some(x.canonical()),
            None => None,
        }) == (match nmea_parsed(raw@) {
            Some(Parsed::Mda(d)) => Some(d),
            _ => None,
        }),
{
    match nmea::parse_str(raw) {
        Ok(ParseResult::MDA(d)) => Some(
            MdaData {
                pressure_bar: d.pressure_bar.map(|x| x.to_bits()),
                air_temp_deg: d.air_temp_deg.map(|x| x.to_bits()),
                water_temp_deg: d.water_temp_deg.map(|x| x.to_bits()),
                rel_humidity: d.rel_humidity.map(|x| x.to_bits()),
                dew_point: d.dew_point.map(|x| x.to_bits()),
                wind_direction_true: d.wind_direction_true.map(|x| x.to_bits()),
                wind_speed_knots: d.wind_speed_knots.map(|x| x.to_bits()),
                wind_speed_ms: d.wind_speed_ms.map(|x| x.to_bits()),
            },
        ),
        _ => None,
    }
}

/// Wraps `nmea::parse_str` for a GLL sentence: its fields, if the text is such a sentence.
/// Nothing is said of a text with a time whose seconds are not a number.
#[verifier::external_body]
fn parsed_gll(raw: &str) -> (r: Option<GllData>)
    ensures
        !nan_time(raw@) ==> (match r {
            Some(x) => Some(x.canonical()),
            None => None,
        }) == (match nmea_parsed(raw@) {
            Some(Parsed::Gll(d)) => Some(d),
            _ => None,
        }),
{
    match nmea::parse_str(raw) {
        Ok(ParseResult::GLL(d)) => Some(
            GllData {
                latitude: d.latitude.map(|x| Real { bits: x.to_bits() }),
                longitude: d.longitude.map(|x| Real { bits: x.to_bits() }),
                valid: d.valid,
            },
        ),
        _ => None,
    }
}

/// Wraps `nmea::parse_str` for a DBK sentence: its fields, if the text is such a sentence.
#[verifier::external_body]
fn parsed_dbk(raw: &str) -> (r: Option<DbkData>)
    ensures
        (match r {
            Some(x) => Some(x.canonical()),
            None => None,
        }) == (match nmea_parsed(raw@) {
            Some(Parsed::Dbk(d)) => Some(d),
            _ => None,
        }),
{
    match nmea::parse_str(raw) {
        Ok(ParseResult::DBK(d)) => Some(
            DbkData {
                depth_feet: d.depth_feet.map(|x| Real { bits: x.to_bits() }),
                depth_meters: d.depth_meters.map(|x| Real { bits: x.to_bits() }),
                depth_fathoms: d.depth_fathoms.map(|x| Real { bits: x.to_bits() }),
            },
        ),
        _ => None,
    }
}

/// Wraps `nmea::parse_str` for a BWC sentence: its fields, if the text is such a sentence.
/// Nothing is said of a text with a time whose seconds are not a number.
#[verifier::external_body]
fn parsed_bwc(raw: &str) -> (r: Option<BwcData>)
    ensures
        !nan_time(raw@) ==> (match r {
            Some(x) => Some(x.canonical()),
            None => None,
        }) == (match nmea_parsed(raw@) {
            Some(Parsed::Bwc(d)) => Some(d),
            _ => None,
        }),
{
    match nmea::parse_str(raw) {
        Ok(ParseResult::BWC(d)) => Some(
            BwcData {
                latitude: d.latitude.map(|x| Real { bits: x.to_bits() }),
                longitude: d.longitude.map(|x| Real { bits: x.to_bits() }),
                true_bearing: d.true_bearing.map(|x| x.to_bits()),
                magnetic_bearing: d.magnetic_bearing.map(|x| x.to_bits()),
                distance: d.distance.map(|x| x.to_bits()),
            },
        ),
        _ => None,
    }
}

/// Wraps `nmea::parse_str` for a BOD sentence: its fields, if the text is such a sentence.
#[verifier::external_body]
fn parsed_bod(raw: &str) -> (r: Option<BodData>)
    ensures
        (match r {
            Some(x) => Some(x.canonical()),
            None => None,
        }) == (match nmea_parsed(raw@) {
            Some(Parsed::Bod(d)) => Some(d),
            _ => None,
        }),
{
    match nmea::parse_str(raw) {
        Ok(ParseResult::BOD(d)) => Some(
            BodData {
                bearing_true: d.bearing_true.map(|x| x.to_bits()),
                bearing_magnetic: d.bearing_magnetic.map(|x| x.to_bits()),
            },
        ),
        _ => None,
    }
}

/// Wraps `nmea::parse_str` for a GSA sentence: its fields, if the text is such a sentence.
#[verifier::external_body]
fn parsed_gsa(raw: &str) -> (r: Option<GsaData>)
    ensures
        (match r {
            Some(x) => Some(x.canonical()),
            None => None,
        }) == (match nmea_parsed(raw@) {
            Some(Parsed::Gsa(d)) => Some(d),
            _ => None,
        }),
{
    match nmea::parse_str(raw) {
        Ok(ParseResult::GSA(d)) => Some(
            GsaData {
                fix_satellites: d.fix_sats_prn.len() as u32,
                pdop: d.pdop.map(|x| x.to_bits()),
                hdop: d.hdop.map(|x| x.to_bits()),
            },
        ),
        _ => None,
    }
}

/// Wraps `nmea::parse_str` for the time of an RMC sentence.
/// Nothing is said of a text with a time whose seconds are not a number.
#[verifier::external_body]
fn parsed_rmc_time(raw: &str) -> (r: Option<ClockTime>)
    ensures
        !nan_time(raw@) ==> r == (match nmea_parsed(raw@) {
            Some(Parsed::Rmc(d)) => d.fix_time,
            _ => None,
        }),
{
    match nmea::parse_str(raw) {
        Ok(ParseResult::RMC(d)) => d.fix_time.map(
            |t| ClockTime {
                hour: t.hour(),
                minute: t.minute(),
                second: t.second(),
                nanosecond: t.nanosecond(),
            },
        ),
        _ => None,
    }
}

/// Wraps `nmea::parse_str` for the date of an RMC sentence.
/// Nothing is said of a text with a time whose seconds are not a number.
#[verifier::external_body]
fn parsed_rmc_date(raw: &str) -> (r: Option<CalendarDate>)
    ensures
        !nan_time(raw@) ==> r == (match nmea_parsed(raw@) {
            Some(Parsed::Rmc(d)) => d.fix_date,
            _ => None,
        }),
{
    match nmea::parse_str(raw) {
        Ok(ParseResult::RMC(d)) => d.fix_date.map(
            |t| CalendarDate { year: t.year(), month: t.month(), day: t.day() },
        ),
        _ => None,
    }
}

/// Wraps `nmea::parse_str` for the status of an RMC sentence.
/// Nothing is said of a text with a time whose seconds are not a number.
#[verifier::external_body]
fn parsed_rmc_status(raw: &str) -> (r: Option<RmcStatusOfFix>)
    ensures
        !nan_time(raw@) ==> r == (match nmea_parsed(raw@) {
            Some(Parsed::Rmc(d)) => Some(d.status_of_fix),
            _ => None,
        }),
{
    match nmea::parse_str(raw) {
        Ok(ParseResult::RMC(d)) => Some(
            match d.status_of_fix {
                rmc::RmcStatusOfFix::Autonomous => RmcStatusOfFix::Autonomous,
                rmc::RmcStatusOfFix::Differential => RmcStatusOfFix::Differential,
                rmc::RmcStatusOfFix::Invalid => RmcStatusOfFix::Invalid,
            },
        ),
        _ => None,
    }
}

/// Wraps `nmea::parse_str` for position and motion of an RMC sentence, beside a time, a date
/// and a status that are passed through.
/// Nothing is said of a text with a time whose seconds are not a number.
#[verifier::external_body]
fn parsed_rmc(
    raw: &str,
    fix_time: Option<ClockTime>,
    fix_date: Option<CalendarDate>,
    status_of_fix: RmcStatusOfFix,
) -> (r: Option<RmcData>)
    ensures
        !nan_time(raw@) ==> (match r {
            Some(x) => Some(x.canonical()),
            None => None,
        }) == (match nmea_parsed(raw@) {
            Some(Parsed::Rmc(d)) => Some(RmcData { fix_time, fix_date, status_of_fix, ..d }),
            _ => None,
        }),
{
    match nmea::parse_str(raw) {
        Ok(ParseResult::RMC(d)) => Some(
            RmcData {
                fix_time,
                fix_date,
                status_of_fix,
                lat: d.lat.map(|x| Real { bits: x.to_bits() }),
                lon: d.lon.map(|x| Real { bits: x.to_bits() }),
                speed_over_ground: d.speed_over_ground.map(|x| x.to_bits()),
                true_course: d.true_course.map(|x| x.to_bits()),
                magnetic_variation: d.magnetic_variation.map(|x| x.to_bits()),
            },
        ),
        _ => None,
    }
}

/// Wraps `nmea::parse_str` for the kind of fix of a GGA sentence.
/// Nothing is said of a text with a time whose seconds are not a number.
#[verifier::external_body]
fn parsed_fix_type(raw: &str) -> (r: Option<FixType>)
    ensures
        !nan_time(raw@) ==> r == (match nmea_parsed(raw@) {
            Some(Parsed::Gga(d)) => d.fix_type,
            _ => None,
        }),
{
    match nmea::parse_str(raw) {
        Ok(ParseResult::GGA(d)) => d.fix_type.map(|f| match f {
            sentences::FixType::Invalid => FixType::Invalid,
            sentences::FixType::Gps => FixType::Gps,
            sentences::FixType::DGps => FixType::DGps,
            sentences::FixType::Pps => FixType::Pps,
            sentences::FixType::Rtk => FixType::Rtk,
            sentences::FixType::FloatRtk => FixType::FloatRtk,
            sentences::FixType::Estimated => FixType::Estimated,
            sentences::FixType::Manual => FixType::Manual,
            sentences::FixType::Simulation => FixType::Simulation,
        }),
        _ => None,
    }
}

/// Wraps `nmea::parse_str` for a GGA sentence, beside a kind of fix that is passed through.
/// Nothing is said of a text with a time whose seconds are not a number.
#[verifier::external_body]
fn parsed_gga(raw: &str, fix_type: Option<FixType>) -> (r: Option<GgaData>)
    ensures
        !nan_time(raw@) ==> (match r {
            Some(x) => Some(x.canonical()),
            None => None,
        }) == (match nmea_parsed(raw@) {
            Some(Parsed::Gga(d)) => Some(GgaData { fix_type, ..d }),
            _ => None,
        }),
{
    match nmea::parse_str(raw) {
        Ok(ParseResult::GGA(d)) => Some(
            GgaData {
                fix_type,
                latitude: d.latitude.map(|x| Real { bits: x.to_bits() }),
                longitude: d.longitude.map(|x| Real { bits: x.to_bits() }),
                fix_satellites: d.fix_satellites,
                hdop: d.hdop.map(|x| x.to_bits()),
                altitude: d.altitude.map(|x| x.to_bits()),
            },
        ),
        _ => None,
    }
}

/// Wraps `nmea::parse_str` for the wind reference of an MWV sentence.
#[verifier::external_body]
fn parsed_wind_reference(raw: &str) -> (r: Option<MwvReference>)
    ensures
        r == (match nmea_parsed(raw@) {
            Some(Parsed::Mwv(d)) => d.reference,
            _ => None,
        }),
{
    match nmea::parse_str(raw) {
        Ok(ParseResult::MWV(d)) => d.reference.map(
            |x| match x {
                mwv::MwvReference::Relative => MwvReference::Relative,
                mwv::MwvReference::Theoretical => MwvReference::Theoretical,
            },
        ),
        _ => None,
    }
}

/// Wraps `nmea::parse_str` for the unit of the wind speed of an MWV sentence.
#[verifier::external_body]
fn parsed_wind_units(raw: &str) -> (r: Option<MwvWindSpeedUnits>)
    ensures
        r == (match nmea_parsed(raw@) {
            Some(Parsed::Mwv(d)) => d.wind_speed_units,
            _ => None,
        }),
{
    match nmea::parse_str(raw) {
        Ok(ParseResult::MWV(d)) => d.wind_speed_units.map(
            |x| match x {
                mwv::MwvWindSpeedUnits::KilometersPerHour => MwvWindSpeedUnits::KilometersPerHour,
                mwv::MwvWindSpeedUnits::MetersPerSecond => MwvWindSpeedUnits::MetersPerSecond,
                mwv::MwvWindSpeedUnits::Knots => MwvWindSpeedUnits::Knots,
                mwv::MwvWindSpeedUnits::MilesPerHour => MwvWindSpeedUnits::MilesPerHour,
            },
        ),
        _ => None,
    }
}

/// Wraps `nmea::parse_str` for an MWV sentence, beside a reference and a unit that are passed
/// through.
#[verifier::external_body]
fn parsed_mwv(
    raw: &str,
    reference: Option<MwvReference>,
    wind_speed_units: Option<MwvWindSpeedUnits>,
) -> (r: Option<MwvData>)
    ensures
        (match r {
            Some(x) => Some(x.canonical()),
            None => None,
        }) == (match nmea_parsed(raw@) {
            Some(Parsed::Mwv(d)) => Some(MwvData { reference, wind_speed_units, ..d }),
            _ => None,
        }),
{
    match nmea::parse_str(raw) {
        Ok(ParseResult::MWV(d)) => Some(
            MwvData {
                reference,
                wind_speed_units,
                wind_direction: d.wind_direction.map(|x| x.to_bits()),
                wind_speed: d.wind_speed.map(|x| x.to_bits()),
                data_valid: d.data_valid,
            },
        ),
        _ => None,
    }
}

/// Wraps `nmea::parse_str` for the navigational status of a GNS sentence.
/// Nothing is said of a text with a time whose seconds are not a number.
#[verifier::external_body]
fn parsed_gns_status(raw: &str) -> (r: Option<GnsNavigationStatus>)
    ensures
        !nan_time(raw@) ==> r == (match nmea_parsed(raw@) {
            Some(Parsed::Gns(d)) => d.nav_status,
            _ => None,
        }),
{
    match nmea::parse_str(raw) {
        Ok(ParseResult::GNS(d)) => d.nav_status.map(
            |s| match s {
                gns::NavigationStatus::Safe => GnsNavigationStatus::Safe,
                gns::NavigationStatus::Caution => GnsNavigationStatus::Caution,
                gns::NavigationStatus::Unsafe => GnsNavigationStatus::Unsafe,
                gns::NavigationStatus::NotValidForNavigation => GnsNavigationStatus::NotValidForNavigation,
            },
        ),
        _ => None,
    }
}

/// Wraps `nmea::parse_str` for a GNS sentence, beside a status that is passed through.
/// Nothing is said of a text with a time whose seconds are not a number.
#[verifier::external_body]
fn parsed_gns(raw: &str, nav_status: Option<GnsNavigationStatus>) -> (r: Option<GnsData>)
    ensures
        !nan_time(raw@) ==> (match r {
            Some(x) => Some(x.canonical()),
            None => None,
        }) == (match nmea_parsed(raw@) {
            Some(Parsed::Gns(d)) => Some(GnsData { nav_status, ..d }),
            _ => None,
        }),
{
    match nmea::parse_str(raw) {
        Ok(ParseResult::GNS(d)) => Some(
            GnsData {
                nav_status,
                lat: d.lat.map(|x| Real { bits: x.to_bits() }),
                lon: d.lon.map(|x| Real { bits: x.to_bits() }),
                nsattelites: d.nsattelites,
                hdop: d.hdop.map(|x| x.to_bits()),
                alt: d.alt.map(|x| x.to_bits()),
            },
        ),
        _ => None,
    }
}

/// Wraps `nmea::parse_str` for the time of a ZDA sentence.
/// Nothing is said of a text with a time whose seconds are not a number.
#[verifier::external_body]
fn parsed_zda_time(raw: &str) -> (r: Option<ClockTime>)
    ensures
        !nan_time(raw@) ==> r == (match nmea_parsed(raw@) {
            Some(Parsed::Zda(d)) => d.utc_time,
            _ => None,
        }),
{
    match nmea::parse_str(raw) {
        Ok(ParseResult::ZDA(d)) => d.utc_time.map(
            |t| ClockTime {
                hour: t.hour(),
                minute: t.minute(),
                second: t.second(),
                nanosecond: t.nanosecond(),
            },
        ),
        _ => None,
    }
}

/// Wraps `nmea::parse_str` for a ZDA sentence, beside a time that is passed through.
/// Nothing is said of a text with a time whose seconds are not a number.
#[verifier::external_body]
fn parsed_zda(raw: &str, utc_time: Option<ClockTime>) -> (r: Option<ZdaData>)
    ensures
        !nan_time(raw@) ==> r == (match nmea_parsed(raw@) {
            Some(Parsed::Zda(d)) => Some(ZdaData { utc_time, ..d }),
            _ => None,
        }),
{
    match nmea::parse_str(raw) {
        Ok(ParseResult::ZDA(d)) => Some(
            ZdaData { utc_time, day: d.day, month: d.month, year: d.year },
        ),
        _ => None,
    }
}

/// Wraps `nmea::parse_str` for a DBS sentence: the text is such a sentence, is ASCII and has the
/// right checksum. The crate leaves the fields unread here.
#[verifier::external_body]
fn is_dbs(raw: &str) -> (r: bool)
    ensures
        r == (nmea_parsed(raw@) == Some(Parsed::Dbs)),
{
    matches!(nmea::parse_str(raw), Ok(ParseResult::Unsupported(SentenceType::DBS)))
}

/// Wraps `nmea::sentences::parse_dbs` on what `nmea::parse_nmea_sentence` takes a text apart
/// into: the depths, if the text is a DBS sentence. Neither looks at the checksum.
#[verifier::external_body]
pub(crate) fn parse_dbs(raw: &str) -> (r: Option<DbsData>)
    ensures
        (match r {
            Some(x) => Some(x.canonical()),
            None => None,
        }) == dbs_parsed(raw@),
{
    let d = sentences::parse_dbs(nmea::parse_nmea_sentence(raw).ok()?).ok()?;
    Some(
        DbsData {
            water_depth_feet: d.water_depth_feet.map(|x| x.to_bits()),
            water_depth_meters: d.water_depth_meters.map(|x| x.to_bits()),
            water_depth_fathoms: d.water_depth_fathoms.map(|x| x.to_bits()),
        },
    )
}

fn parse_rmc(raw: &str) -> (r: Option<RmcData>)
    ensures
        !nan_time(raw@) ==> (match r {
            Some(x) => Some(x.canonical()),
            None => None,
        }) == (match nmea_parsed(raw@) {
            Some(Parsed::Rmc(d)) => Some(d),
            _ => None,
        }),
{
    match parsed_rmc_status(raw) {
        Some(status) => parsed_rmc(raw, parsed_rmc_time(raw), parsed_rmc_date(raw), status),
        None => None,
    }
}

/// Parses a sentence.
pub fn parse(raw: &str) -> (r: Option<Parsed>)
    ensures
        reads_as(raw@, r),
{
    if let Some(d) = parse_rmc(raw) {
        return Some(Parsed::Rmc(d.canonical()));
    }
    if let Some(d) = parsed_gga(raw, parsed_fix_type(raw)) {
        return Some(Parsed::Gga(d.canonical()));
    }
    if let Some(d) = parsed_mwv(raw, parsed_wind_reference(raw), parsed_wind_units(raw)) {
        return Some(Parsed::Mwv(d.canonical()));
    }
    if let Some(d) = parsed_gns(raw, parsed_gns_status(raw)) {
        return Some(Parsed::Gns(d.canonical()));
    }
    if let Some(d) = parsed_zda(raw, parsed_zda_time(raw)) {
        return Some(Parsed::Zda(d));
    }
    if let Some(d) = parsed_vtg(raw) {
        return Some(Parsed::Vtg(d.canonical()));
    }
    if let Some(d) = parsed_hdt(raw) {
        return Some(Parsed::Hdt(d.canonical()));
    }
    if let Some(d) = parsed_dpt(raw) {
        return Some(Parsed::Dpt(d.canonical()));
    }
    if let Some(d) = parsed_vhw(raw) {
        return Some(Parsed::Vhw(d.canonical()));
    }
    if let Some(d) = parsed_mtw(raw) {
        return Some(Parsed::Mtw(d.canonical()));
    }
    if let Some(d) = parsed_mda(raw) {
        return Some(Parsed::Mda(d.canonical()));
    }
    if let Some(d) = parsed_gll(raw) {
        return Some(Parsed::Gll(d.canonical()));
    }
    if let Some(d) = parsed_dbk(raw) {
        return Some(Parsed::Dbk(d.canonical()));
    }
    if let Some(d) = parsed_bwc(raw) {
        return Some(Parsed::Bwc(d.canonical()));
    }
    if let Some(d) = parsed_bod(raw) {
        return Some(Parsed::Bod(d.canonical()));
    }
    if let Some(d) = parsed_gsa(raw) {
        return Some(Parsed::Gsa(d.canonical()));
    }
    if is_dbs(raw) {
        return Some(Parsed::Dbs);
    }
    None
}

} // verus!
