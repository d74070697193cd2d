//! What a sentence reports under each path.
use crate::clock::{millis_view, text_view, CalendarDate, ClockTime};
use crate::expr::{lit, Expr};
use crate::nmea0183::{sentence_entries, Sentence};
use crate::number::Real;
use crate::paths::{
    as_read, group_paths, only, place_3d_of, place_as_read, position_has_its_members,
    suffixes_tell_paths_apart, under,
};
use crate::sentences::course::{BodData, BwcData, RmbData, XteData};
use crate::sentences::depth::{DbkData, DbsData, DbtData, DptData};
use crate::sentences::environment::{MdaData, MtwData, VdrData, VlwData};
use crate::sentences::gnss::{GnsData, GnsNavigationStatus, GsaData, ZdaData};
use crate::sentences::heading::{HdgData, HdmData, HdtData, RotData, VhwData};
use crate::sentences::position::{FixType, GgaData, GllData, RmcData, VtgData};
use crate::sentences::propulsion::{RpmData, RpmSource, RsaData};
use crate::sentences::wind::{MwdData, MwvData, MwvReference, MwvWindSpeedUnits, VwrData, VwtData};
use crate::sentences::gnss::iso_text;
use crate::signalk::ValueView;
use crate::text::digits;
use crate::units::{
    BAR_TO_PA, DEG_TO_RAD, FATHOMS_TO_M, FEET_TO_M, HUNDRED, KELVIN_OFFSET, KMH_PER_MS,
    KNOTS_TO_MS, MPH_TO_MS, NM_TO_M, SIXTY, ZERO,
};
use vstd::prelude::*;

verus! {

/// A single precision reading, as it was read.
pub open spec fn plain_single(x: Option<u32>) -> Seq<ValueView> {
    match x {
        Some(s) => only(Expr::Single(s)),
        None => Seq::empty(),
    }
}

/// A single precision reading, times a constant.
pub open spec fn scaled_single(x: Option<u32>, constant: u64) -> Seq<ValueView> {
    match x {
        Some(s) => only(Expr::Single(s).times(lit(constant))),
        None => Seq::empty(),
    }
}

/// A single precision reading, by a constant.
pub open spec fn shared_single(x: Option<u32>, constant: u64) -> Seq<ValueView> {
    match x {
        Some(s) => only(Expr::Single(s).over(lit(constant))),
        None => Seq::empty(),
    }
}

/// A single precision reading, with a constant added.
pub open spec fn raised_single(x: Option<u32>, constant: u64) -> Seq<ValueView> {
    match x {
        Some(s) => only(Expr::Single(s).plus(lit(constant))),
        None => Seq::empty(),
    }
}

/// A double precision reading, times a constant.
pub open spec fn scaled_real(x: Option<Real>, constant: u64) -> Seq<ValueView> {
    match x {
        Some(v) => only(Expr::Lit(v).times(lit(constant))),
        None => Seq::empty(),
    }
}

/// A double precision reading, with a constant added.
pub open spec fn raised_real(x: Option<Real>, constant: u64) -> Seq<ValueView> {
    match x {
        Some(v) => only(Expr::Lit(v).plus(lit(constant))),
        None => Seq::empty(),
    }
}

/// The paths of VTG are different ones.
#[verifier::spinoff_prover]
proof fn vtg_paths_differ()
    ensures
        "navigation.courseOverGroundTrue"@ != "navigation.speedOverGround"@,
{
    reveal_strlit("navigation.courseOverGroundTrue");
    reveal_strlit("navigation.speedOverGround");
    assert("navigation.courseOverGroundTrue"@.len() == 31);
    assert("navigation.speedOverGround"@.len() == 26);
}

/// VTG reports the true course in radians and the speed over ground in metres per second.
pub proof fn vtg_is_reported(d: VtgData)
    ensures
        under(sentence_entries(Sentence::Vtg(d)), "navigation.courseOverGroundTrue"@)
            == scaled_single(d.true_course, DEG_TO_RAD),
        under(sentence_entries(Sentence::Vtg(d)), "navigation.speedOverGround"@)
            == scaled_single(d.speed_over_ground, KNOTS_TO_MS),
{
    vtg_paths_differ();
    broadcast use group_paths;

    let list = sentence_entries(Sentence::Vtg(d));
    assert(under(list, "navigation.courseOverGroundTrue"@)
        =~= scaled_single(d.true_course, DEG_TO_RAD));
    assert(under(list, "navigation.speedOverGround"@)
        =~= scaled_single(d.speed_over_ground, KNOTS_TO_MS));
}

/// GLL reports the position, where it is valid.
pub proof fn gll_is_reported(d: GllData)
    ensures
        under(sentence_entries(Sentence::Gll(d)), "navigation.position"@) == (if d.valid {
            place_as_read(d.latitude, d.longitude)
        } else {
            Seq::empty()
        }),
{
    broadcast use group_paths;

    let list = sentence_entries(Sentence::Gll(d));
}

/// HDT reports the true heading in radians.
pub proof fn hdt_is_reported(d: HdtData)
    ensures
        under(sentence_entries(Sentence::Hdt(d)), "navigation.headingTrue"@)
            == scaled_single(d.heading, DEG_TO_RAD),
{
    broadcast use group_paths;

    let list = sentence_entries(Sentence::Hdt(d));
    assert(under(list, "navigation.headingTrue"@) =~= scaled_single(d.heading, DEG_TO_RAD));
}

/// The paths of HDG are different ones.
#[verifier::spinoff_prover]
proof fn hdg_paths_differ()
    ensures
        "navigation.headingMagnetic"@ != "navigation.magneticDeviation"@,
        "navigation.headingMagnetic"@ != "navigation.magneticVariation"@,
        "navigation.magneticDeviation"@ != "navigation.magneticVariation"@,
{
    reveal_strlit("navigation.headingMagnetic");
    reveal_strlit("navigation.magneticDeviation");
    reveal_strlit("navigation.magneticVariation");
    assert("navigation.headingMagnetic"@.len() == 26);
    assert("navigation.magneticDeviation"@[19] == 'D');
    assert("navigation.magneticDeviation"@.len() == 28);
    assert("navigation.magneticVariation"@[19] == 'V');
    assert("navigation.magneticVariation"@.len() == 28);
}

/// HDG reports the magnetic heading, deviation and variation in radians.
pub proof fn hdg_is_reported(d: HdgData)
    ensures
        under(sentence_entries(Sentence::Hdg(d)), "navigation.headingMagnetic"@)
            == scaled_single(d.heading, DEG_TO_RAD),
        under(sentence_entries(Sentence::Hdg(d)), "navigation.magneticDeviation"@)
            == scaled_single(d.deviation, DEG_TO_RAD),
        under(sentence_entries(Sentence::Hdg(d)), "navigation.magneticVariation"@)
            == scaled_single(d.variation, DEG_TO_RAD),
{
    hdg_paths_differ();
    broadcast use group_paths;

    let list = sentence_entries(Sentence::Hdg(d));
    assert(under(list, "navigation.headingMagnetic"@) =~= scaled_single(d.heading, DEG_TO_RAD));
    assert(under(list, "navigation.magneticDeviation"@) =~= scaled_single(d.deviation, DEG_TO_RAD));
    assert(under(list, "navigation.magneticVariation"@) =~= scaled_single(d.variation, DEG_TO_RAD));
}

/// HDM reports the magnetic heading in radians.
pub proof fn hdm_is_reported(d: HdmData)
    ensures
        under(sentence_entries(Sentence::Hdm(d)), "navigation.headingMagnetic"@)
            == scaled_single(d.heading, DEG_TO_RAD),
{
    broadcast use group_paths;

    let list = sentence_entries(Sentence::Hdm(d));
    assert(under(list, "navigation.headingMagnetic"@) =~= scaled_single(d.heading, DEG_TO_RAD));
}

/// The paths of VHW are different ones.
#[verifier::spinoff_prover]
proof fn vhw_paths_differ()
    ensures
        "navigation.headingMagnetic"@ != "navigation.headingTrue"@,
        "navigation.headingMagnetic"@ != "navigation.speedThroughWater"@,
        "navigation.headingTrue"@ != "navigation.speedThroughWater"@,
{
    reveal_strlit("navigation.headingMagnetic");
    reveal_strlit("navigation.headingTrue");
    reveal_strlit("navigation.speedThroughWater");
    assert("navigation.headingMagnetic"@.len() == 26);
    assert("navigation.headingTrue"@.len() == 22);
    assert("navigation.speedThroughWater"@.len() == 28);
}

/// VHW reports the speed through the water in metres per second and both headings in radians.
pub proof fn vhw_is_reported(d: VhwData)
    ensures
        under(sentence_entries(Sentence::Vhw(d)), "navigation.speedThroughWater"@)
            == scaled_real(d.relative_speed_knots, KNOTS_TO_MS),
        under(sentence_entries(Sentence::Vhw(d)), "navigation.headingTrue"@)
            == scaled_real(d.heading_true, DEG_TO_RAD),
        under(sentence_entries(Sentence::Vhw(d)), "navigation.headingMagnetic"@)
            == scaled_real(d.heading_magnetic, DEG_TO_RAD),
{
    vhw_paths_differ();
    broadcast use group_paths;

    let list = sentence_entries(Sentence::Vhw(d));
    assert(under(list, "navigation.speedThroughWater"@)
        =~= scaled_real(d.relative_speed_knots, KNOTS_TO_MS));
    assert(under(list, "navigation.headingTrue"@) =~= scaled_real(d.heading_true, DEG_TO_RAD));
    assert(under(list, "navigation.headingMagnetic"@)
        =~= scaled_real(d.heading_magnetic, DEG_TO_RAD));
}

/// ROT reports the rate of turn, per minute in degrees, per second in radians, unless invalid.
pub proof fn rot_is_reported(d: RotData)
    ensures
        under(sentence_entries(Sentence::Rot(d)), "navigation.rateOfTurn"@) == (match d.rate {
            Some(s) => if d.valid == Some(false) {
                Seq::empty()
            } else {
                only(Expr::Single(s).times(lit(DEG_TO_RAD)).over(lit(SIXTY)))
            },
            None => Seq::empty(),
        }),
{
    broadcast use group_paths;

    let list = sentence_entries(Sentence::Rot(d));
}

/// The paths of MWV are different ones.
#[verifier::spinoff_prover]
proof fn mwv_paths_differ()
    ensures
        "environment.wind.angleApparent"@ != "environment.wind.angleTrueWater"@,
        "environment.wind.angleApparent"@ != "environment.wind.speedApparent"@,
        "environment.wind.angleApparent"@ != "environment.wind.speedTrue"@,
        "environment.wind.angleTrueWater"@ != "environment.wind.speedApparent"@,
        "environment.wind.angleTrueWater"@ != "environment.wind.speedTrue"@,
        "environment.wind.speedApparent"@ != "environment.wind.speedTrue"@,
{
    reveal_strlit("environment.wind.angleApparent");
    reveal_strlit("environment.wind.angleTrueWater");
    reveal_strlit("environment.wind.speedApparent");
    reveal_strlit("environment.wind.speedTrue");
    assert("environment.wind.angleApparent"@[17] == 'a');
    assert("environment.wind.angleApparent"@.len() == 30);
    assert("environment.wind.angleTrueWater"@.len() == 31);
    assert("environment.wind.speedApparent"@[17] == 's');
    assert("environment.wind.speedApparent"@.len() == 30);
    assert("environment.wind.speedTrue"@.len() == 26);
}

/// MWV reports angle and speed of the wind: apparent where they are relative, true where they are
/// theoretical, nothing where they are invalid. The speed is in metres per second, whatever its
/// unit.
pub proof fn mwv_is_reported(d: MwvData)
    ensures
        under(sentence_entries(Sentence::Mwv(d)), "environment.wind.angleApparent"@)
            == (if d.data_valid && d.reference == Some(MwvReference::Relative) {
            scaled_single(d.wind_direction, DEG_TO_RAD)
        } else {
            Seq::empty()
        }),
        under(sentence_entries(Sentence::Mwv(d)), "environment.wind.speedApparent"@)
            == (if d.data_valid && d.reference == Some(MwvReference::Relative) {
            (match (d.wind_speed, d.wind_speed_units) {
                (Some(s), Some(MwvWindSpeedUnits::Knots)) => only(
                    Expr::Single(s).times(lit(KNOTS_TO_MS)),
                ),
                (Some(s), Some(MwvWindSpeedUnits::MetersPerSecond)) => only(Expr::Single(s)),
                (Some(s), Some(MwvWindSpeedUnits::KilometersPerHour)) => only(
                    Expr::Single(s).over(lit(KMH_PER_MS)),
                ),
                (Some(s), Some(MwvWindSpeedUnits::MilesPerHour)) => only(
                    Expr::Single(s).times(lit(MPH_TO_MS)),
                ),
                _ => Seq::empty(),
            })
        } else {
            Seq::empty()
        }),
        under(sentence_entries(Sentence::Mwv(d)), "environment.wind.angleTrueWater"@)
            == (if d.data_valid && d.reference == Some(MwvReference::Theoretical) {
            scaled_single(d.wind_direction, DEG_TO_RAD)
        } else {
            Seq::empty()
        }),
        under(sentence_entries(Sentence::Mwv(d)), "environment.wind.speedTrue"@)
            == (if d.data_valid && d.reference == Some(MwvReference::Theoretical) {
            (match (d.wind_speed, d.wind_speed_units) {
                (Some(s), Some(MwvWindSpeedUnits::Knots)) => only(
                    Expr::Single(s).times(lit(KNOTS_TO_MS)),
                ),
                (Some(s), Some(MwvWindSpeedUnits::MetersPerSecond)) => only(Expr::Single(s)),
                (Some(s), Some(MwvWindSpeedUnits::KilometersPerHour)) => only(
                    Expr::Single(s).over(lit(KMH_PER_MS)),
                ),
                (Some(s), Some(MwvWindSpeedUnits::MilesPerHour)) => only(
                    Expr::Single(s).times(lit(MPH_TO_MS)),
                ),
                _ => Seq::empty(),
            })
        } else {
            Seq::empty()
        }),
{
    mwv_paths_differ();
    broadcast use group_paths;

    let list = sentence_entries(Sentence::Mwv(d));
}

/// The paths of MWD are different ones.
#[verifier::spinoff_prover]
proof fn mwd_paths_differ()
    ensures
        "environment.wind.directionMagnetic"@ != "environment.wind.directionTrue"@,
        "environment.wind.directionMagnetic"@ != "environment.wind.speedTrue"@,
        "environment.wind.directionTrue"@ != "environment.wind.speedTrue"@,
{
    reveal_strlit("environment.wind.directionMagnetic");
    reveal_strlit("environment.wind.directionTrue");
    reveal_strlit("environment.wind.speedTrue");
    assert("environment.wind.directionMagnetic"@.len() == 34);
    assert("environment.wind.directionTrue"@.len() == 30);
    assert("environment.wind.speedTrue"@.len() == 26);
}

/// MWD reports the directions of the true wind in radians and its speed in metres per second.
pub proof fn mwd_is_reported(d: MwdData)
    ensures
        under(sentence_entries(Sentence::Mwd(d)), "environment.wind.directionTrue"@)
            == scaled_single(d.wind_direction_true, DEG_TO_RAD),
        under(sentence_entries(Sentence::Mwd(d)), "environment.wind.directionMagnetic"@)
            == scaled_single(d.wind_direction_magnetic, DEG_TO_RAD),
        under(sentence_entries(Sentence::Mwd(d)), "environment.wind.speedTrue"@)
            == (if d.wind_speed_mps is Some {
            plain_single(d.wind_speed_mps)
        } else {
            scaled_single(d.wind_speed_knots, KNOTS_TO_MS)
        }),
{
    mwd_paths_differ();
    broadcast use group_paths;

    let list = sentence_entries(Sentence::Mwd(d));
    assert(under(list, "environment.wind.directionTrue"@)
        =~= scaled_single(d.wind_direction_true, DEG_TO_RAD));
    assert(under(list, "environment.wind.directionMagnetic"@)
        =~= scaled_single(d.wind_direction_magnetic, DEG_TO_RAD));
}

/// The paths of VWR are different ones.
#[verifier::spinoff_prover]
proof fn vwr_paths_differ()
    ensures
        "environment.wind.angleApparent"@ != "environment.wind.speedApparent"@,
{
    reveal_strlit("environment.wind.angleApparent");
    reveal_strlit("environment.wind.speedApparent");
    assert("environment.wind.angleApparent"@[17] == 'a');
    assert("environment.wind.speedApparent"@[17] == 's');
}

/// VWR reports angle and speed of the apparent wind.
pub proof fn vwr_is_reported(d: VwrData)
    ensures
        under(sentence_entries(Sentence::Vwr(d)), "environment.wind.angleApparent"@)
            == scaled_single(d.wind_angle, DEG_TO_RAD),
        under(sentence_entries(Sentence::Vwr(d)), "environment.wind.speedApparent"@)
            == (if d.speed_mps is Some {
            plain_single(d.speed_mps)
        } else {
            scaled_single(d.speed_knots, KNOTS_TO_MS)
        }),
{
    vwr_paths_differ();
    broadcast use group_paths;

    let list = sentence_entries(Sentence::Vwr(d));
    assert(under(list, "environment.wind.angleApparent"@)
        =~= scaled_single(d.wind_angle, DEG_TO_RAD));
}

/// The paths of VWT are different ones.
#[verifier::spinoff_prover]
proof fn vwt_paths_differ()
    ensures
        "environment.wind.angleTrueWater"@ != "environment.wind.speedTrue"@,
{
    reveal_strlit("environment.wind.angleTrueWater");
    reveal_strlit("environment.wind.speedTrue");
    assert("environment.wind.angleTrueWater"@.len() == 31);
    assert("environment.wind.speedTrue"@.len() == 26);
}

/// VWT reports angle and speed of the true wind.
pub proof fn vwt_is_reported(d: VwtData)
    ensures
        under(sentence_entries(Sentence::Vwt(d)), "environment.wind.angleTrueWater"@)
            == scaled_single(d.wind_angle, DEG_TO_RAD),
        under(sentence_entries(Sentence::Vwt(d)), "environment.wind.speedTrue"@)
            == (if d.speed_mps is Some {
            plain_single(d.speed_mps)
        } else {
            scaled_single(d.speed_knots, KNOTS_TO_MS)
        }),
{
    vwt_paths_differ();
    broadcast use group_paths;

    let list = sentence_entries(Sentence::Vwt(d));
    assert(under(list, "environment.wind.angleTrueWater"@)
        =~= scaled_single(d.wind_angle, DEG_TO_RAD));
}

/// DBT reports the depth in metres, from the field in metres, else in feet, else in fathoms.
pub proof fn dbt_is_reported(d: DbtData)
    ensures
        under(sentence_entries(Sentence::Dbt(d)), "environment.depth.belowTransducer"@)
            == (if d.depth_meters is Some {
            as_read(d.depth_meters)
        } else if d.depth_feet is Some {
            scaled_real(d.depth_feet, FEET_TO_M)
        } else {
            scaled_real(d.depth_fathoms, FATHOMS_TO_M)
        }),
{
    broadcast use group_paths;

    let list = sentence_entries(Sentence::Dbt(d));
}

/// DBS reports the depth in metres, from the field in metres, else in feet, else in fathoms.
pub proof fn dbs_is_reported(d: DbsData)
    ensures
        under(sentence_entries(Sentence::Dbs(d)), "environment.depth.belowSurface"@)
            == (if d.water_depth_meters is Some {
            plain_single(d.water_depth_meters)
        } else if d.water_depth_feet is Some {
            scaled_single(d.water_depth_feet, FEET_TO_M)
        } else {
            scaled_single(d.water_depth_fathoms, FATHOMS_TO_M)
        }),
{
    broadcast use group_paths;

    let list = sentence_entries(Sentence::Dbs(d));
}

/// DBK reports the depth in metres, from the field in metres, else in feet, else in fathoms.
pub proof fn dbk_is_reported(d: DbkData)
    ensures
        under(sentence_entries(Sentence::Dbk(d)), "environment.depth.belowKeel"@)
            == (if d.depth_meters is Some {
            as_read(d.depth_meters)
        } else if d.depth_feet is Some {
            scaled_real(d.depth_feet, FEET_TO_M)
        } else {
            scaled_real(d.depth_fathoms, FATHOMS_TO_M)
        }),
{
    broadcast use group_paths;

    let list = sentence_entries(Sentence::Dbk(d));
}

/// MTW reports the temperature of the water in kelvin.
pub proof fn mtw_is_reported(d: MtwData)
    ensures
        under(sentence_entries(Sentence::Mtw(d)), "environment.water.temperature"@)
            == raised_real(d.temperature, KELVIN_OFFSET),
{
    broadcast use group_paths;

    let list = sentence_entries(Sentence::Mtw(d));
    assert(under(list, "environment.water.temperature"@)
        =~= raised_real(d.temperature, KELVIN_OFFSET));
}

/// The paths of MDA are different ones.
#[verifier::spinoff_prover]
proof fn mda_paths_differ()
    ensures
        "environment.outside.dewPointTemperature"@ != "environment.outside.humidity"@,
        "environment.outside.dewPointTemperature"@ != "environment.outside.pressure"@,
        "environment.outside.dewPointTemperature"@ != "environment.outside.temperature"@,
        "environment.outside.dewPointTemperature"@ != "environment.water.temperature"@,
        "environment.outside.dewPointTemperature"@ != "environment.wind.directionTrue"@,
        "environment.outside.dewPointTemperature"@ != "environment.wind.speedTrue"@,
        "environment.outside.humidity"@ != "environment.outside.pressure"@,
        "environment.outside.humidity"@ != "environment.outside.temperature"@,
        "environment.outside.humidity"@ != "environment.water.temperature"@,
        "environment.outside.humidity"@ != "environment.wind.directionTrue"@,
        "environment.outside.humidity"@ != "environment.wind.speedTrue"@,
        "environment.outside.pressure"@ != "environment.outside.temperature"@,
        "environment.outside.pressure"@ != "environment.water.temperature"@,
        "environment.outside.pressure"@ != "environment.wind.directionTrue"@,
        "environment.outside.pressure"@ != "environment.wind.speedTrue"@,
        "environment.outside.temperature"@ != "environment.water.temperature"@,
        "environment.outside.temperature"@ != "environment.wind.directionTrue"@,
        "environment.outside.temperature"@ != "environment.wind.speedTrue"@,
        "environment.water.temperature"@ != "environment.wind.directionTrue"@,
        "environment.water.temperature"@ != "environment.wind.speedTrue"@,
        "environment.wind.directionTrue"@ != "environment.wind.speedTrue"@,
{
    reveal_strlit("environment.outside.dewPointTemperature");
    reveal_strlit("environment.outside.humidity");
    reveal_strlit("environment.outside.pressure");
    reveal_strlit("environment.outside.temperature");
    reveal_strlit("environment.water.temperature");
    reveal_strlit("environment.wind.directionTrue");
    reveal_strlit("environment.wind.speedTrue");
    assert("environment.outside.dewPointTemperature"@.len() == 39);
    assert("environment.outside.humidity"@[20] == 'h');
    assert("environment.outside.humidity"@.len() == 28);
    assert("environment.outside.pressure"@[20] == 'p');
    assert("environment.outside.pressure"@.len() == 28);
    assert("environment.outside.temperature"@.len() == 31);
    assert("environment.water.temperature"@.len() == 29);
    assert("environment.wind.directionTrue"@.len() == 30);
    assert("environment.wind.speedTrue"@.len() == 26);
}

/// MDA reports pressure in pascal, temperatures in kelvin, humidity as a ratio, and direction and
/// speed of the true wind.
pub proof fn mda_is_reported(d: MdaData)
    ensures
        under(sentence_entries(Sentence::Mda(d)), "environment.outside.pressure"@)
            == scaled_single(d.pressure_bar, BAR_TO_PA),
        under(sentence_entries(Sentence::Mda(d)), "environment.outside.temperature"@)
            == raised_single(d.air_temp_deg, KELVIN_OFFSET),
        under(sentence_entries(Sentence::Mda(d)), "environment.water.temperature"@)
            == raised_single(d.water_temp_deg, KELVIN_OFFSET),
        under(sentence_entries(Sentence::Mda(d)), "environment.outside.humidity"@)
            == shared_single(d.rel_humidity, HUNDRED),
        under(sentence_entries(Sentence::Mda(d)), "environment.outside.dewPointTemperature"@)
            == raised_single(d.dew_point, KELVIN_OFFSET),
        under(sentence_entries(Sentence::Mda(d)), "environment.wind.directionTrue"@)
            == scaled_single(d.wind_direction_true, DEG_TO_RAD),
        under(sentence_entries(Sentence::Mda(d)), "environment.wind.speedTrue"@)
            == (if d.wind_speed_ms is Some {
            plain_single(d.wind_speed_ms)
        } else {
            scaled_single(d.wind_speed_knots, KNOTS_TO_MS)
        }),
{
    mda_paths_differ();
    broadcast use group_paths;

    let list = sentence_entries(Sentence::Mda(d));
    assert(under(list, "environment.outside.pressure"@)
        =~= scaled_single(d.pressure_bar, BAR_TO_PA));
    assert(under(list, "environment.outside.temperature"@)
        =~= raised_single(d.air_temp_deg, KELVIN_OFFSET));
    assert(under(list, "environment.water.temperature"@)
        =~= raised_single(d.water_temp_deg, KELVIN_OFFSET));
    assert(under(list, "environment.outside.humidity"@) =~= shared_single(d.rel_humidity, HUNDRED));
    assert(under(list, "environment.outside.dewPointTemperature"@)
        =~= raised_single(d.dew_point, KELVIN_OFFSET));
    assert(under(list, "environment.wind.directionTrue"@)
        =~= scaled_single(d.wind_direction_true, DEG_TO_RAD));
}

/// The paths of VDR are different ones.
#[verifier::spinoff_prover]
proof fn vdr_paths_differ()
    ensures
        "environment.current.drift"@ != "environment.current.setTrue"@,
{
    reveal_strlit("environment.current.drift");
    reveal_strlit("environment.current.setTrue");
    assert("environment.current.drift"@.len() == 25);
    assert("environment.current.setTrue"@.len() == 27);
}

/// VDR reports set and drift of the current.
pub proof fn vdr_is_reported(d: VdrData)
    ensures
        under(sentence_entries(Sentence::Vdr(d)), "environment.current.setTrue"@)
            == scaled_single(d.direction_true, DEG_TO_RAD),
        under(sentence_entries(Sentence::Vdr(d)), "environment.current.drift"@)
            == scaled_single(d.speed, KNOTS_TO_MS),
{
    vdr_paths_differ();
    broadcast use group_paths;

    let list = sentence_entries(Sentence::Vdr(d));
    assert(under(list, "environment.current.setTrue"@)
        =~= scaled_single(d.direction_true, DEG_TO_RAD));
    assert(under(list, "environment.current.drift"@) =~= scaled_single(d.speed, KNOTS_TO_MS));
}

/// The paths of VLW are different ones.
#[verifier::spinoff_prover]
proof fn vlw_paths_differ()
    ensures
        "navigation.log"@ != "navigation.trip.log"@,
{
    reveal_strlit("navigation.log");
    reveal_strlit("navigation.trip.log");
    assert("navigation.log"@.len() == 14);
    assert("navigation.trip.log"@.len() == 19);
}

/// VLW reports the distances through the water in metres, of the trip and in all.
pub proof fn vlw_is_reported(d: VlwData)
    ensures
        under(sentence_entries(Sentence::Vlw(d)), "navigation.trip.log"@)
            == scaled_single(d.trip_water_distance, NM_TO_M),
        under(sentence_entries(Sentence::Vlw(d)), "navigation.log"@)
            == scaled_single(d.total_water_distance, NM_TO_M),
{
    vlw_paths_differ();
    broadcast use group_paths;

    let list = sentence_entries(Sentence::Vlw(d));
    assert(under(list, "navigation.trip.log"@) =~= scaled_single(d.trip_water_distance, NM_TO_M));
    assert(under(list, "navigation.log"@) =~= scaled_single(d.total_water_distance, NM_TO_M));
}

/// The paths of GSA are different ones.
#[verifier::spinoff_prover]
proof fn gsa_paths_differ()
    ensures
        "navigation.gnss.horizontalDilution"@ != "navigation.gnss.positionDilution"@,
        "navigation.gnss.horizontalDilution"@ != "navigation.gnss.satellites"@,
        "navigation.gnss.positionDilution"@ != "navigation.gnss.satellites"@,
{
    reveal_strlit("navigation.gnss.horizontalDilution");
    reveal_strlit("navigation.gnss.positionDilution");
    reveal_strlit("navigation.gnss.satellites");
    assert("navigation.gnss.horizontalDilution"@.len() == 34);
    assert("navigation.gnss.positionDilution"@.len() == 32);
    assert("navigation.gnss.satellites"@.len() == 26);
}

/// GSA reports the dilutions of precision and, where there are any, the number of satellites.
pub proof fn gsa_is_reported(d: GsaData)
    ensures
        under(sentence_entries(Sentence::Gsa(d)), "navigation.gnss.horizontalDilution"@)
            == plain_single(d.hdop),
        under(sentence_entries(Sentence::Gsa(d)), "navigation.gnss.positionDilution"@)
            == plain_single(d.pdop),
        under(sentence_entries(Sentence::Gsa(d)), "navigation.gnss.satellites"@)
            == (if d.fix_satellites > 0 {
            seq![ValueView::Int(d.fix_satellites as i64)]
        } else {
            Seq::empty()
        }),
{
    gsa_paths_differ();
    broadcast use group_paths;

    let list = sentence_entries(Sentence::Gsa(d));
    assert(under(list, "navigation.gnss.horizontalDilution"@) =~= plain_single(d.hdop));
    assert(under(list, "navigation.gnss.positionDilution"@) =~= plain_single(d.pdop));
}

/// The paths of GGA are different ones.
#[verifier::spinoff_prover]
proof fn gga_paths_differ()
    ensures
        "navigation.gnss.horizontalDilution"@ != "navigation.gnss.methodQuality"@,
        "navigation.gnss.horizontalDilution"@ != "navigation.gnss.satellites"@,
        "navigation.gnss.horizontalDilution"@ != "navigation.position"@,
        "navigation.gnss.methodQuality"@ != "navigation.gnss.satellites"@,
        "navigation.gnss.methodQuality"@ != "navigation.position"@,
        "navigation.gnss.satellites"@ != "navigation.position"@,
{
    reveal_strlit("navigation.gnss.horizontalDilution");
    reveal_strlit("navigation.gnss.methodQuality");
    reveal_strlit("navigation.gnss.satellites");
    reveal_strlit("navigation.position");
    assert("navigation.gnss.horizontalDilution"@.len() == 34);
    assert("navigation.gnss.methodQuality"@.len() == 29);
    assert("navigation.gnss.satellites"@.len() == 26);
    assert("navigation.position"@.len() == 19);
}

/// GGA reports the position with its altitude, the dilution, the satellites and the quality of the
/// fix.
pub proof fn gga_is_reported(d: GgaData)
    ensures
        under(sentence_entries(Sentence::Gga(d)), "navigation.position"@)
            == (match (d.latitude, d.longitude) {
            (Some(lat), Some(lon)) => place_3d_of(
                Expr::Lit(lat),
                Expr::Lit(lon),
                match d.altitude {
                    Some(s) => Some(Expr::Single(s)),
                    None => None,
                },
            ),
            _ => Seq::empty(),
        }),
        under(sentence_entries(Sentence::Gga(d)), "navigation.gnss.horizontalDilution"@)
            == plain_single(d.hdop),
        under(sentence_entries(Sentence::Gga(d)), "navigation.gnss.satellites"@)
            == (match d.fix_satellites {
            Some(n) => seq![ValueView::Int(n as i64)],
            None => Seq::empty(),
        }),
        under(sentence_entries(Sentence::Gga(d)), "navigation.gnss.methodQuality"@)
            == (match d.fix_type {
            Some(fix) => seq![
                ValueView::Text(
                    match fix {
                        FixType::Invalid => "no GPS"@,
                        FixType::Gps => "GNSS"@,
                        FixType::DGps => "DGNSS"@,
                        FixType::Pps => "PPS"@,
                        FixType::Rtk => "RTK fixed"@,
                        FixType::FloatRtk => "RTK float"@,
                        FixType::Estimated => "estimated"@,
                        FixType::Manual => "manual"@,
                        FixType::Sbas => "DGNSS"@,
                        FixType::Simulation => "simulation"@,
                    },
                ),
            ],
            None => Seq::empty(),
        }),
{
    gga_paths_differ();
    broadcast use group_paths;

    if let (Some(lat), Some(lon)) = (d.latitude, d.longitude) {
        position_has_its_members(
            Expr::Lit(lat),
            Expr::Lit(lon),
            match d.altitude {
                Some(s) => Some(Expr::Single(s)),
                None => None,
            },
        );
    }
    let list = sentence_entries(Sentence::Gga(d));
    assert(under(list, "navigation.gnss.horizontalDilution"@) =~= plain_single(d.hdop));
}

/// The paths of GNS are different ones.
#[verifier::spinoff_prover]
proof fn gns_paths_differ()
    ensures
        "navigation.gnss.horizontalDilution"@ != "navigation.gnss.methodQuality"@,
        "navigation.gnss.horizontalDilution"@ != "navigation.gnss.satellites"@,
        "navigation.gnss.horizontalDilution"@ != "navigation.position"@,
        "navigation.gnss.methodQuality"@ != "navigation.gnss.satellites"@,
        "navigation.gnss.methodQuality"@ != "navigation.position"@,
        "navigation.gnss.satellites"@ != "navigation.position"@,
{
    reveal_strlit("navigation.gnss.horizontalDilution");
    reveal_strlit("navigation.gnss.methodQuality");
    reveal_strlit("navigation.gnss.satellites");
    reveal_strlit("navigation.position");
    assert("navigation.gnss.horizontalDilution"@.len() == 34);
    assert("navigation.gnss.methodQuality"@.len() == 29);
    assert("navigation.gnss.satellites"@.len() == 26);
    assert("navigation.position"@.len() == 19);
}

/// GNS reports the position with its altitude, the dilution, the satellites and the quality of the
/// fix.
pub proof fn gns_is_reported(d: GnsData)
    ensures
        under(sentence_entries(Sentence::Gns(d)), "navigation.position"@) == (match (d.lat, d.lon) {
            (Some(lat), Some(lon)) => place_3d_of(
                Expr::Lit(lat),
                Expr::Lit(lon),
                match d.alt {
                    Some(s) => Some(Expr::Single(s)),
                    None => None,
                },
            ),
            _ => Seq::empty(),
        }),
        under(sentence_entries(Sentence::Gns(d)), "navigation.gnss.horizontalDilution"@)
            == plain_single(d.hdop),
        under(sentence_entries(Sentence::Gns(d)), "navigation.gnss.satellites"@)
            == seq![ValueView::Int(d.nsattelites as i64)],
        under(sentence_entries(Sentence::Gns(d)), "navigation.gnss.methodQuality"@)
            == (match d.nav_status {
            Some(status) => seq![
                ValueView::Text(
                    match status {
                        GnsNavigationStatus::Safe | GnsNavigationStatus::Caution => "GNSS"@,
                        GnsNavigationStatus::Unsafe => "estimated"@,
                        GnsNavigationStatus::NotValidForNavigation => "no GPS"@,
                    },
                ),
            ],
            None => Seq::empty(),
        }),
{
    gns_paths_differ();
    broadcast use group_paths;

    if let (Some(lat), Some(lon)) = (d.lat, d.lon) {
        position_has_its_members(
            Expr::Lit(lat),
            Expr::Lit(lon),
            match d.alt {
                Some(s) => Some(Expr::Single(s)),
                None => None,
            },
        );
    }
    let list = sentence_entries(Sentence::Gns(d));
    assert(under(list, "navigation.gnss.horizontalDilution"@) =~= plain_single(d.hdop));
}

/// The paths of RMB are different ones.
#[verifier::spinoff_prover]
proof fn rmb_paths_differ()
    ensures
        "navigation.courseGreatCircle.crossTrackError"@
            != "navigation.courseGreatCircle.nextPoint.bearingTrue"@,
        "navigation.courseGreatCircle.crossTrackError"@
            != "navigation.courseGreatCircle.nextPoint.distance"@,
        "navigation.courseGreatCircle.crossTrackError"@
            != "navigation.courseGreatCircle.nextPoint.position"@,
        "navigation.courseGreatCircle.nextPoint.bearingTrue"@
            != "navigation.courseGreatCircle.nextPoint.distance"@,
        "navigation.courseGreatCircle.nextPoint.bearingTrue"@
            != "navigation.courseGreatCircle.nextPoint.position"@,
        "navigation.courseGreatCircle.nextPoint.distance"@
            != "navigation.courseGreatCircle.nextPoint.position"@,
{
    reveal_strlit("navigation.courseGreatCircle.crossTrackError");
    reveal_strlit("navigation.courseGreatCircle.nextPoint.bearingTrue");
    reveal_strlit("navigation.courseGreatCircle.nextPoint.distance");
    reveal_strlit("navigation.courseGreatCircle.nextPoint.position");
    assert("navigation.courseGreatCircle.crossTrackError"@.len() == 44);
    assert("navigation.courseGreatCircle.nextPoint.bearingTrue"@.len() == 50);
    assert("navigation.courseGreatCircle.nextPoint.distance"@[39] == 'd');
    assert("navigation.courseGreatCircle.nextPoint.distance"@.len() == 47);
    assert("navigation.courseGreatCircle.nextPoint.position"@[39] == 'p');
    assert("navigation.courseGreatCircle.nextPoint.position"@.len() == 47);
}

/// RMB reports position, distance and bearing of the destination and the cross-track error, while
/// its status is good.
pub proof fn rmb_is_reported(d: RmbData)
    ensures
        under(sentence_entries(Sentence::Rmb(d)),
            "navigation.courseGreatCircle.nextPoint.position"@) == (if d.status {
            place_as_read(d.dest_latitude, d.dest_longitude)
        } else {
            Seq::empty()
        }),
        under(sentence_entries(Sentence::Rmb(d)),
            "navigation.courseGreatCircle.nextPoint.distance"@) == (if d.status {
            scaled_single(d.range_to_dest, NM_TO_M)
        } else {
            Seq::empty()
        }),
        under(sentence_entries(Sentence::Rmb(d)),
            "navigation.courseGreatCircle.nextPoint.bearingTrue"@) == (if d.status {
            scaled_single(d.bearing_to_dest, DEG_TO_RAD)
        } else {
            Seq::empty()
        }),
        under(sentence_entries(Sentence::Rmb(d)), "navigation.courseGreatCircle.crossTrackError"@)
            == (if d.status {
            scaled_single(d.cross_track_error, NM_TO_M)
        } else {
            Seq::empty()
        }),
{
    rmb_paths_differ();
    broadcast use group_paths;

    let list = sentence_entries(Sentence::Rmb(d));
}

/// The paths of BWC are different ones.
#[verifier::spinoff_prover]
proof fn bwc_paths_differ()
    ensures
        "navigation.courseGreatCircle.nextPoint.bearingMagnetic"@
            != "navigation.courseGreatCircle.nextPoint.bearingTrue"@,
        "navigation.courseGreatCircle.nextPoint.bearingMagnetic"@
            != "navigation.courseGreatCircle.nextPoint.distance"@,
        "navigation.courseGreatCircle.nextPoint.bearingMagnetic"@
            != "navigation.courseGreatCircle.nextPoint.position"@,
        "navigation.courseGreatCircle.nextPoint.bearingTrue"@
            != "navigation.courseGreatCircle.nextPoint.distance"@,
        "navigation.courseGreatCircle.nextPoint.bearingTrue"@
            != "navigation.courseGreatCircle.nextPoint.position"@,
        "navigation.courseGreatCircle.nextPoint.distance"@
            != "navigation.courseGreatCircle.nextPoint.position"@,
{
    reveal_strlit("navigation.courseGreatCircle.nextPoint.bearingMagnetic");
    reveal_strlit("navigation.courseGreatCircle.nextPoint.bearingTrue");
    reveal_strlit("navigation.courseGreatCircle.nextPoint.distance");
    reveal_strlit("navigation.courseGreatCircle.nextPoint.position");
    assert("navigation.courseGreatCircle.nextPoint.bearingMagnetic"@.len() == 54);
    assert("navigation.courseGreatCircle.nextPoint.bearingTrue"@.len() == 50);
    assert("navigation.courseGreatCircle.nextPoint.distance"@[39] == 'd');
    assert("navigation.courseGreatCircle.nextPoint.distance"@.len() == 47);
    assert("navigation.courseGreatCircle.nextPoint.position"@[39] == 'p');
    assert("navigation.courseGreatCircle.nextPoint.position"@.len() == 47);
}

/// BWC reports position, bearings and distance of the waypoint.
pub proof fn bwc_is_reported(d: BwcData)
    ensures
        under(sentence_entries(Sentence::Bwc(d)),
            "navigation.courseGreatCircle.nextPoint.position"@)
            == place_as_read(d.latitude, d.longitude),
        under(sentence_entries(Sentence::Bwc(d)),
            "navigation.courseGreatCircle.nextPoint.bearingTrue"@)
            == scaled_single(d.true_bearing, DEG_TO_RAD),
        under(sentence_entries(Sentence::Bwc(d)),
            "navigation.courseGreatCircle.nextPoint.bearingMagnetic"@)
            == scaled_single(d.magnetic_bearing, DEG_TO_RAD),
        under(sentence_entries(Sentence::Bwc(d)),
            "navigation.courseGreatCircle.nextPoint.distance"@)
            == scaled_single(d.distance, NM_TO_M),
{
    bwc_paths_differ();
    broadcast use group_paths;

    let list = sentence_entries(Sentence::Bwc(d));
    assert(under(list, "navigation.courseGreatCircle.nextPoint.bearingTrue"@)
        =~= scaled_single(d.true_bearing, DEG_TO_RAD));
    assert(under(list, "navigation.courseGreatCircle.nextPoint.bearingMagnetic"@)
        =~= scaled_single(d.magnetic_bearing, DEG_TO_RAD));
    assert(under(list, "navigation.courseGreatCircle.nextPoint.distance"@)
        =~= scaled_single(d.distance, NM_TO_M));
}

/// The paths of BOD are different ones.
#[verifier::spinoff_prover]
proof fn bod_paths_differ()
    ensures
        "navigation.courseGreatCircle.bearingTrackMagnetic"@
            != "navigation.courseGreatCircle.bearingTrackTrue"@,
{
    reveal_strlit("navigation.courseGreatCircle.bearingTrackMagnetic");
    reveal_strlit("navigation.courseGreatCircle.bearingTrackTrue");
    assert("navigation.courseGreatCircle.bearingTrackMagnetic"@.len() == 49);
    assert("navigation.courseGreatCircle.bearingTrackTrue"@.len() == 45);
}

/// BOD reports the bearings of the track.
pub proof fn bod_is_reported(d: BodData)
    ensures
        under(sentence_entries(Sentence::Bod(d)), "navigation.courseGreatCircle.bearingTrackTrue"@)
            == scaled_single(d.bearing_true, DEG_TO_RAD),
        under(sentence_entries(Sentence::Bod(d)),
            "navigation.courseGreatCircle.bearingTrackMagnetic"@)
            == scaled_single(d.bearing_magnetic, DEG_TO_RAD),
{
    bod_paths_differ();
    broadcast use group_paths;

    let list = sentence_entries(Sentence::Bod(d));
    assert(under(list, "navigation.courseGreatCircle.bearingTrackTrue"@)
        =~= scaled_single(d.bearing_true, DEG_TO_RAD));
    assert(under(list, "navigation.courseGreatCircle.bearingTrackMagnetic"@)
        =~= scaled_single(d.bearing_magnetic, DEG_TO_RAD));
}

/// XTE reports the cross-track error in metres, while its status is good.
pub proof fn xte_is_reported(d: XteData)
    ensures
        under(sentence_entries(Sentence::Xte(d)), "navigation.courseGreatCircle.crossTrackError"@)
            == (if d.status_general {
            scaled_single(d.cross_track_error, NM_TO_M)
        } else {
            Seq::empty()
        }),
{
    broadcast use group_paths;

    let list = sentence_entries(Sentence::Xte(d));
}

/// The paths of RSA are different ones.
#[verifier::spinoff_prover]
proof fn rsa_paths_differ()
    ensures
        "steering.rudderAngle"@ != "steering.rudderAnglePort"@,
{
    reveal_strlit("steering.rudderAngle");
    reveal_strlit("steering.rudderAnglePort");
    assert("steering.rudderAngle"@.len() == 20);
    assert("steering.rudderAnglePort"@.len() == 24);
}

/// RSA reports the angles of the starboard and the port rudder, each while it is valid.
pub proof fn rsa_is_reported(d: RsaData)
    ensures
        under(sentence_entries(Sentence::Rsa(d)), "steering.rudderAngle"@)
            == (if d.starboard_valid {
            scaled_single(d.starboard, DEG_TO_RAD)
        } else {
            Seq::empty()
        }),
        under(sentence_entries(Sentence::Rsa(d)), "steering.rudderAnglePort"@) == (if d.port_valid {
            scaled_single(d.port, DEG_TO_RAD)
        } else {
            Seq::empty()
        }),
{
    rsa_paths_differ();
    broadcast use group_paths;

    let list = sentence_entries(Sentence::Rsa(d));
}

/// The paths of RMC are different ones.
#[verifier::spinoff_prover]
proof fn rmc_paths_differ()
    ensures
        "environment.time.millis"@ != "environment.time.timezoneOffset"@,
        "environment.time.millis"@ != "environment.time.timezoneRegion"@,
        "environment.time.millis"@ != "navigation.courseOverGroundTrue"@,
        "environment.time.millis"@ != "navigation.datetime"@,
        "environment.time.millis"@ != "navigation.magneticVariation"@,
        "environment.time.millis"@ != "navigation.position"@,
        "environment.time.millis"@ != "navigation.speedOverGround"@,
        "environment.time.timezoneOffset"@ != "environment.time.timezoneRegion"@,
        "environment.time.timezoneOffset"@ != "navigation.courseOverGroundTrue"@,
        "environment.time.timezoneOffset"@ != "navigation.datetime"@,
        "environment.time.timezoneOffset"@ != "navigation.magneticVariation"@,
        "environment.time.timezoneOffset"@ != "navigation.position"@,
        "environment.time.timezoneOffset"@ != "navigation.speedOverGround"@,
        "environment.time.timezoneRegion"@ != "navigation.courseOverGroundTrue"@,
        "environment.time.timezoneRegion"@ != "navigation.datetime"@,
        "environment.time.timezoneRegion"@ != "navigation.magneticVariation"@,
        "environment.time.timezoneRegion"@ != "navigation.position"@,
        "environment.time.timezoneRegion"@ != "navigation.speedOverGround"@,
        "navigation.courseOverGroundTrue"@ != "navigation.datetime"@,
        "navigation.courseOverGroundTrue"@ != "navigation.magneticVariation"@,
        "navigation.courseOverGroundTrue"@ != "navigation.position"@,
        "navigation.courseOverGroundTrue"@ != "navigation.speedOverGround"@,
        "navigation.datetime"@ != "navigation.magneticVariation"@,
        "navigation.datetime"@ != "navigation.position"@,
        "navigation.datetime"@ != "navigation.speedOverGround"@,
        "navigation.magneticVariation"@ != "navigation.position"@,
        "navigation.magneticVariation"@ != "navigation.speedOverGround"@,
        "navigation.position"@ != "navigation.speedOverGround"@,
{
    reveal_strlit("environment.time.millis");
    reveal_strlit("environment.time.timezoneOffset");
    reveal_strlit("environment.time.timezoneRegion");
    reveal_strlit("navigation.courseOverGroundTrue");
    reveal_strlit("navigation.datetime");
    reveal_strlit("navigation.magneticVariation");
    reveal_strlit("navigation.position");
    reveal_strlit("navigation.speedOverGround");
    assert("environment.time.millis"@.len() == 23);
    assert("environment.time.timezoneOffset"@[0] == 'e');
    assert("environment.time.timezoneOffset"@[25] == 'O');
    assert("environment.time.timezoneOffset"@.len() == 31);
    assert("environment.time.timezoneRegion"@[0] == 'e');
    assert("environment.time.timezoneRegion"@[25] == 'R');
    assert("environment.time.timezoneRegion"@.len() == 31);
    assert("navigation.courseOverGroundTrue"@[0] == 'n');
    assert("navigation.courseOverGroundTrue"@.len() == 31);
    assert("navigation.datetime"@[11] == 'd');
    assert("navigation.datetime"@.len() == 19);
    assert("navigation.magneticVariation"@.len() == 28);
    assert("navigation.position"@[11] == 'p');
    assert("navigation.position"@.len() == 19);
    assert("navigation.speedOverGround"@.len() == 26);
}

/// RMC reports position, speed, course and variation.
pub proof fn rmc_is_reported(d: RmcData)
    ensures
        under(sentence_entries(Sentence::Rmc(d)), "navigation.position"@)
            == place_as_read(d.lat, d.lon),
        under(sentence_entries(Sentence::Rmc(d)), "navigation.speedOverGround"@)
            == scaled_single(d.speed_over_ground, KNOTS_TO_MS),
        under(sentence_entries(Sentence::Rmc(d)), "navigation.courseOverGroundTrue"@)
            == scaled_single(d.true_course, DEG_TO_RAD),
        under(sentence_entries(Sentence::Rmc(d)), "navigation.magneticVariation"@)
            == scaled_single(d.magnetic_variation, DEG_TO_RAD),
{
    rmc_paths_differ();
    broadcast use group_paths;

    let list = sentence_entries(Sentence::Rmc(d));
    assert(under(list, "navigation.speedOverGround"@)
        =~= scaled_single(d.speed_over_ground, KNOTS_TO_MS));
    assert(under(list, "navigation.courseOverGroundTrue"@)
        =~= scaled_single(d.true_course, DEG_TO_RAD));
    assert(under(list, "navigation.magneticVariation"@)
        =~= scaled_single(d.magnetic_variation, DEG_TO_RAD));
}

/// The paths of DPT are different ones.
#[verifier::spinoff_prover]
proof fn dpt_paths_differ()
    ensures
        "environment.depth.belowKeel"@ != "environment.depth.belowSurface"@,
        "environment.depth.belowKeel"@ != "environment.depth.belowTransducer"@,
        "environment.depth.belowSurface"@ != "environment.depth.belowTransducer"@,
{
    reveal_strlit("environment.depth.belowKeel");
    reveal_strlit("environment.depth.belowSurface");
    reveal_strlit("environment.depth.belowTransducer");
    assert("environment.depth.belowKeel"@.len() == 27);
    assert("environment.depth.belowSurface"@.len() == 30);
    assert("environment.depth.belowTransducer"@.len() == 33);
}

/// DPT reports the depth below the transducer, and with an offset that below the surface (for an
/// offset of zero or more) or below the keel (for a negative one).
pub proof fn dpt_is_reported(d: DptData)
    ensures
        under(sentence_entries(Sentence::Dpt(d)), "environment.depth.belowTransducer"@)
            == as_read(d.water_depth),
        under(sentence_entries(Sentence::Dpt(d)), "environment.depth.belowSurface"@)
            == (match (d.water_depth, d.offset) {
            (Some(depth), Some(offset)) => if (Real { bits: ZERO }).le(offset) {
                only(Expr::Lit(depth).plus(Expr::Lit(offset)))
            } else {
                Seq::empty()
            },
            _ => Seq::empty(),
        }),
        under(sentence_entries(Sentence::Dpt(d)), "environment.depth.belowKeel"@)
            == (match (d.water_depth, d.offset) {
            (Some(depth), Some(offset)) => if (Real { bits: ZERO }).le(offset) {
                Seq::empty()
            } else {
                only(Expr::Lit(depth).plus(Expr::Lit(offset)))
            },
            _ => Seq::empty(),
        }),
{
    dpt_paths_differ();
    broadcast use group_paths;

    let list = sentence_entries(Sentence::Dpt(d));
    assert(under(list, "environment.depth.belowTransducer"@) =~= as_read(d.water_depth));
}

/// The paths of a time are different ones.
#[verifier::spinoff_prover]
proof fn time_paths_differ()
    ensures
        "environment.time.millis"@ != "environment.time.timezoneOffset"@,
        "environment.time.millis"@ != "environment.time.timezoneRegion"@,
        "environment.time.millis"@ != "navigation.datetime"@,
        "environment.time.timezoneOffset"@ != "environment.time.timezoneRegion"@,
        "environment.time.timezoneOffset"@ != "navigation.datetime"@,
        "environment.time.timezoneRegion"@ != "navigation.datetime"@,
{
    reveal_strlit("environment.time.millis");
    reveal_strlit("environment.time.timezoneOffset");
    reveal_strlit("environment.time.timezoneRegion");
    reveal_strlit("navigation.datetime");
    assert("environment.time.millis"@.len() == 23);
    assert("environment.time.timezoneOffset"@[25] == 'O');
    assert("environment.time.timezoneOffset"@.len() == 31);
    assert("environment.time.timezoneRegion"@[25] == 'R');
    assert("environment.time.timezoneRegion"@.len() == 31);
    assert("navigation.datetime"@.len() == 19);
}

/// RMC reports the time of a valid fix: as text, and as Unix time in milliseconds, in UTC. A fix
/// that is invalid, or whose date or time is missing or does not exist, reports none.
pub proof fn rmc_time_is_reported(d: RmcData)
    ensures
        ({
            let list = sentence_entries(Sentence::Rmc(d));
            let known = d.fix_date is Some && d.fix_time is Some && !(d.status_of_fix is Invalid);
            let iso = text_view(d.fix_date->0, d.fix_time->0);
            let millis = millis_view(d.fix_date->0, d.fix_time->0);
            if known && iso is Some && millis is Some {
                &&& under(list, "navigation.datetime"@) == seq![ValueView::Text(iso->0)]
                &&& under(list, "environment.time.millis"@) == seq![ValueView::Int(millis->0)]
                &&& under(list, "environment.time.timezoneOffset"@) == seq![ValueView::Int(0)]
                &&& under(list, "environment.time.timezoneRegion"@) == seq![
                    ValueView::Text("UTC"@),
                ]
            } else {
                &&& under(list, "navigation.datetime"@) == Seq::<ValueView>::empty()
                &&& under(list, "environment.time.millis"@) == Seq::<ValueView>::empty()
            }
        }),
{
    rmc_paths_differ();
    time_paths_differ();
    broadcast use group_paths;

}

/// ZDA reports the date and time as text, and as Unix time in milliseconds where they exist.
pub proof fn zda_is_reported(time: ClockTime, day: u8, month: u8, year: u16)
    ensures
        ({
            let d = ZdaData {
                utc_time: Some(time),
                day: Some(day),
                month: Some(month),
                year: Some(year),
            };
            let list = sentence_entries(Sentence::Zda(d));
            let date = CalendarDate { year: year as i32, month: month as u32, day: day as u32 };
            &&& under(list, "navigation.datetime"@) == seq![
                ValueView::Text(iso_text(year, month, day, time)),
            ]
            &&& under(list, "environment.time.millis"@) == (match millis_view(date, time) {
                Some(millis) => seq![ValueView::Int(millis)],
                None => Seq::empty(),
            })
        }),
{
    time_paths_differ();
    broadcast use group_paths;

}

/// RPM reports revolutions per second and the pitch as a ratio, below the path of the engine or
/// the shaft with its number, while they are valid.
pub proof fn rpm_is_reported(d: RpmData)
    ensures
        ({
            let list = sentence_entries(Sentence::Rpm(d));
            let n = match d.source_number {
                Some(n) => n as nat,
                None => 0,
            };
            let prefix = if d.source == Some(RpmSource::Engine) {
                "propulsion.engine"@ + digits(n)
            } else {
                "propulsion.shaft"@ + digits(n)
            };
            &&& under(list, prefix + ".revolutions"@) == if d.valid {
                shared_single(d.rpm, SIXTY)
            } else {
                Seq::empty()
            }
            &&& under(list, prefix + ".pitch"@) == if d.valid {
                shared_single(d.pitch, HUNDRED)
            } else {
                Seq::empty()
            }
        }),
{
    reveal_strlit(".revolutions");
    reveal_strlit(".pitch");
    assert(".revolutions"@.len() == 12);
    assert(".pitch"@.len() == 6);
    broadcast use group_paths;

    let n = match d.source_number {
        Some(n) => n as nat,
        None => 0,
    };
    let prefix = if d.source == Some(RpmSource::Engine) {
        "propulsion.engine"@ + digits(n)
    } else {
        "propulsion.shaft"@ + digits(n)
    };
    suffixes_tell_paths_apart(prefix, ".revolutions"@, ".pitch"@);
    let list = sentence_entries(Sentence::Rpm(d));
    if d.valid {
        assert(under(list, prefix + ".revolutions"@) =~= shared_single(d.rpm, SIXTY));
        assert(under(list, prefix + ".pitch"@) =~= shared_single(d.pitch, HUNDRED));
    }
}

} // verus!
