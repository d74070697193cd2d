//! The records that the parser fills, with one bit pattern for all that are not a number.
//!
//! Which bits a number has that is not a number is left open where it was made, so the
//! library keeps one pattern for them all.
use crate::number::{canonical_real, canonical_single, Real};
use crate::sentences::course::{BodData, BwcData};
use crate::sentences::depth::{DbkData, DbsData, DptData};
use crate::sentences::environment::{MdaData, MtwData};
use crate::sentences::gnss::{GnsData, GsaData};
use crate::sentences::heading::{HdtData, VhwData};
use crate::sentences::position::{GgaData, GllData, RmcData, VtgData};
use crate::sentences::wind::MwvData;
use vstd::prelude::*;

verus! {

impl RmcData {
    /// The same record, with one pattern for all that are not a number.
    #[verifier::allow_in_spec]
    pub fn canonical(self) -> (r: Self)
        returns
            (RmcData {
                lat: canonical_real(self.lat),
                lon: canonical_real(self.lon),
                speed_over_ground: canonical_single(self.speed_over_ground),
                true_course: canonical_single(self.true_course),
                magnetic_variation: canonical_single(self.magnetic_variation),
                ..self
            }),
    {
        RmcData {
            lat: canonical_real(self.lat),
            lon: canonical_real(self.lon),
            speed_over_ground: canonical_single(self.speed_over_ground),
            true_course: canonical_single(self.true_course),
            magnetic_variation: canonical_single(self.magnetic_variation),
            ..self
        }
    }
}

impl GgaData {
    /// The same record, with one pattern for all that are not a number.
    #[verifier::allow_in_spec]
    pub fn canonical(self) -> (r: Self)
        returns
            (GgaData {
                latitude: canonical_real(self.latitude),
                longitude: canonical_real(self.longitude),
                hdop: canonical_single(self.hdop),
                altitude: canonical_single(self.altitude),
                ..self
            }),
    {
        GgaData {
            latitude: canonical_real(self.latitude),
            longitude: canonical_real(self.longitude),
            hdop: canonical_single(self.hdop),
            altitude: canonical_single(self.altitude),
            ..self
        }
    }
}

impl VtgData {
    /// The same record, with one pattern for all that are not a number.
    #[verifier::allow_in_spec]
    pub fn canonical(self) -> (r: Self)
        returns
            (VtgData {
                true_course: canonical_single(self.true_course),
                speed_over_ground: canonical_single(self.speed_over_ground),
            }),
    {
        VtgData {
            true_course: canonical_single(self.true_course),
            speed_over_ground: canonical_single(self.speed_over_ground),
        }
    }
}

impl GllData {
    /// The same record, with one pattern for all that are not a number.
    #[verifier::allow_in_spec]
    pub fn canonical(self) -> (r: Self)
        returns
            (GllData {
                latitude: canonical_real(self.latitude),
                longitude: canonical_real(self.longitude),
                ..self
            }),
    {
        GllData {
            latitude: canonical_real(self.latitude),
            longitude: canonical_real(self.longitude),
            ..self
        }
    }
}

impl HdtData {
    /// The same record, with one pattern for all that are not a number.
    #[verifier::allow_in_spec]
    pub fn canonical(self) -> (r: Self)
        returns
            (HdtData {
                heading: canonical_single(self.heading),
            }),
    {
        HdtData {
            heading: canonical_single(self.heading),
        }
    }
}

impl VhwData {
    /// The same record, with one pattern for all that are not a number.
    #[verifier::allow_in_spec]
    pub fn canonical(self) -> (r: Self)
        returns
            (VhwData {
                heading_true: canonical_real(self.heading_true),
                heading_magnetic: canonical_real(self.heading_magnetic),
                relative_speed_knots: canonical_real(self.relative_speed_knots),
            }),
    {
        VhwData {
            heading_true: canonical_real(self.heading_true),
            heading_magnetic: canonical_real(self.heading_magnetic),
            relative_speed_knots: canonical_real(self.relative_speed_knots),
        }
    }
}

impl MwvData {
    /// The same record, with one pattern for all that are not a number.
    #[verifier::allow_in_spec]
    pub fn canonical(self) -> (r: Self)
        returns
            (MwvData {
                wind_direction: canonical_single(self.wind_direction),
                wind_speed: canonical_single(self.wind_speed),
                ..self
            }),
    {
        MwvData {
            wind_direction: canonical_single(self.wind_direction),
            wind_speed: canonical_single(self.wind_speed),
            ..self
        }
    }
}

impl DptData {
    /// The same record, with one pattern for all that are not a number.
    #[verifier::allow_in_spec]
    pub fn canonical(self) -> (r: Self)
        returns
            (DptData {
                water_depth: canonical_real(self.water_depth),
                offset: canonical_real(self.offset),
            }),
    {
        DptData {
            water_depth: canonical_real(self.water_depth),
            offset: canonical_real(self.offset),
        }
    }
}

impl DbkData {
    /// The same record, with one pattern for all that are not a number.
    #[verifier::allow_in_spec]
    pub fn canonical(self) -> (r: Self)
        returns
            (DbkData {
                depth_feet: canonical_real(self.depth_feet),
                depth_meters: canonical_real(self.depth_meters),
                depth_fathoms: canonical_real(self.depth_fathoms),
            }),
    {
        DbkData {
            depth_feet: canonical_real(self.depth_feet),
            depth_meters: canonical_real(self.depth_meters),
            depth_fathoms: canonical_real(self.depth_fathoms),
        }
    }
}

impl DbsData {
    /// The same record, with one pattern for all that are not a number.
    #[verifier::allow_in_spec]
    pub fn canonical(self) -> (r: Self)
        returns
            (DbsData {
                water_depth_feet: canonical_single(self.water_depth_feet),
                water_depth_meters: canonical_single(self.water_depth_meters),
                water_depth_fathoms: canonical_single(self.water_depth_fathoms),
            }),
    {
        DbsData {
            water_depth_feet: canonical_single(self.water_depth_feet),
            water_depth_meters: canonical_single(self.water_depth_meters),
            water_depth_fathoms: canonical_single(self.water_depth_fathoms),
        }
    }
}

impl MtwData {
    /// The same record, with one pattern for all that are not a number.
    #[verifier::allow_in_spec]
    pub fn canonical(self) -> (r: Self)
        returns
            (MtwData {
                temperature: canonical_real(self.temperature),
            }),
    {
        MtwData {
            temperature: canonical_real(self.temperature),
        }
    }
}

impl MdaData {
    /// The same record, with one pattern for all that are not a number.
    #[verifier::allow_in_spec]
    pub fn canonical(self) -> (r: Self)
        returns
            (MdaData {
                pressure_bar: canonical_single(self.pressure_bar),
                air_temp_deg: canonical_single(self.air_temp_deg),
                water_temp_deg: canonical_single(self.water_temp_deg),
                rel_humidity: canonical_single(self.rel_humidity),
                dew_point: canonical_single(self.dew_point),
                wind_direction_true: canonical_single(self.wind_direction_true),
                wind_speed_knots: canonical_single(self.wind_speed_knots),
                wind_speed_ms: canonical_single(self.wind_speed_ms),
            }),
    {
        MdaData {
            pressure_bar: canonical_single(self.pressure_bar),
            air_temp_deg: canonical_single(self.air_temp_deg),
            water_temp_deg: canonical_single(self.water_temp_deg),
            rel_humidity: canonical_single(self.rel_humidity),
            dew_point: canonical_single(self.dew_point),
            wind_direction_true: canonical_single(self.wind_direction_true),
            wind_speed_knots: canonical_single(self.wind_speed_knots),
            wind_speed_ms: canonical_single(self.wind_speed_ms),
        }
    }
}

impl BwcData {
    /// The same record, with one pattern for all that are not a number.
    #[verifier::allow_in_spec]
    pub fn canonical(self) -> (r: Self)
        returns
            (BwcData {
                latitude: canonical_real(self.latitude),
                longitude: canonical_real(self.longitude),
                true_bearing: canonical_single(self.true_bearing),
                magnetic_bearing: canonical_single(self.magnetic_bearing),
                distance: canonical_single(self.distance),
            }),
    {
        BwcData {
            latitude: canonical_real(self.latitude),
            longitude: canonical_real(self.longitude),
            true_bearing: canonical_single(self.true_bearing),
            magnetic_bearing: canonical_single(self.magnetic_bearing),
            distance: canonical_single(self.distance),
        }
    }
}

impl BodData {
    /// The same record, with one pattern for all that are not a number.
    #[verifier::allow_in_spec]
    pub fn canonical(self) -> (r: Self)
        returns
            (BodData {
                bearing_true: canonical_single(self.bearing_true),
                bearing_magnetic: canonical_single(self.bearing_magnetic),
            }),
    {
        BodData {
            bearing_true: canonical_single(self.bearing_true),
            bearing_magnetic: canonical_single(self.bearing_magnetic),
        }
    }
}

impl GsaData {
    /// The same record, with one pattern for all that are not a number.
    #[verifier::allow_in_spec]
    pub fn canonical(self) -> (r: Self)
        returns
            (GsaData {
                pdop: canonical_single(self.pdop),
                hdop: canonical_single(self.hdop),
                ..self
            }),
    {
        GsaData {
            pdop: canonical_single(self.pdop),
            hdop: canonical_single(self.hdop),
            ..self
        }
    }
}

impl GnsData {
    /// The same record, with one pattern for all that are not a number.
    #[verifier::allow_in_spec]
    pub fn canonical(self) -> (r: Self)
        returns
            (GnsData {
                lat: canonical_real(self.lat),
                lon: canonical_real(self.lon),
                hdop: canonical_single(self.hdop),
                alt: canonical_single(self.alt),
                ..self
            }),
    {
        GnsData {
            lat: canonical_real(self.lat),
            lon: canonical_real(self.lon),
            hdop: canonical_single(self.hdop),
            alt: canonical_single(self.alt),
            ..self
        }
    }
}

// ---------------------------------------------------------------------------
// Laws
// ---------------------------------------------------------------------------

/// The number is missing, or it is one.
pub open spec fn number_or_none(x: Option<Real>) -> bool {
    x matches Some(a) ==> !a.nan()
}

/// The bits are missing, or they are those of a number: below the infinity of their sign.
pub open spec fn single_or_none(x: Option<u32>) -> bool {
    x matches Some(a) ==> (if a < 0x8000_0000 {
        a as int
    } else {
        a - 0x8000_0000
    }) <= 0x7F80_0000
}

/// RMC data made of numbers stay as they are.
pub proof fn rmc_numbers_stay(d: RmcData)
    requires
        number_or_none(d.lat),
        number_or_none(d.lon),
        single_or_none(d.speed_over_ground),
        single_or_none(d.true_course),
        single_or_none(d.magnetic_variation),
    ensures
        d.canonical() == d,
{
}

/// GGA data made of numbers stay as they are.
pub proof fn gga_numbers_stay(d: GgaData)
    requires
        number_or_none(d.latitude),
        number_or_none(d.longitude),
        single_or_none(d.hdop),
        single_or_none(d.altitude),
    ensures
        d.canonical() == d,
{
}

/// VTG data made of numbers stay as they are.
pub proof fn vtg_numbers_stay(d: VtgData)
    requires
        single_or_none(d.true_course),
        single_or_none(d.speed_over_ground),
    ensures
        d.canonical() == d,
{
}

/// GLL data made of numbers stay as they are.
pub proof fn gll_numbers_stay(d: GllData)
    requires
        number_or_none(d.latitude),
        number_or_none(d.longitude),
    ensures
        d.canonical() == d,
{
}

/// HDT data made of numbers stay as they are.
pub proof fn hdt_numbers_stay(d: HdtData)
    requires
        single_or_none(d.heading),
    ensures
        d.canonical() == d,
{
}

/// VHW data made of numbers stay as they are.
pub proof fn vhw_numbers_stay(d: VhwData)
    requires
        number_or_none(d.heading_true),
        number_or_none(d.heading_magnetic),
        number_or_none(d.relative_speed_knots),
    ensures
        d.canonical() == d,
{
}

/// MWV data made of numbers stay as they are.
pub proof fn mwv_numbers_stay(d: MwvData)
    requires
        single_or_none(d.wind_direction),
        single_or_none(d.wind_speed),
    ensures
        d.canonical() == d,
{
}

/// DPT data made of numbers stay as they are.
pub proof fn dpt_numbers_stay(d: DptData)
    requires
        number_or_none(d.water_depth),
        number_or_none(d.offset),
    ensures
        d.canonical() == d,
{
}

/// DBK data made of numbers stay as they are.
pub proof fn dbk_numbers_stay(d: DbkData)
    requires
        number_or_none(d.depth_feet),
        number_or_none(d.depth_meters),
        number_or_none(d.depth_fathoms),
    ensures
        d.canonical() == d,
{
}

/// DBS data made of numbers stay as they are.
pub proof fn dbs_numbers_stay(d: DbsData)
    requires
        single_or_none(d.water_depth_feet),
        single_or_none(d.water_depth_meters),
        single_or_none(d.water_depth_fathoms),
    ensures
        d.canonical() == d,
{
}

/// MTW data made of numbers stay as they are.
pub proof fn mtw_numbers_stay(d: MtwData)
    requires
        number_or_none(d.temperature),
    ensures
        d.canonical() == d,
{
}

/// MDA data made of numbers stay as they are.
pub proof fn mda_numbers_stay(d: MdaData)
    requires
        single_or_none(d.pressure_bar),
        single_or_none(d.air_temp_deg),
        single_or_none(d.water_temp_deg),
        single_or_none(d.rel_humidity),
        single_or_none(d.dew_point),
        single_or_none(d.wind_direction_true),
        single_or_none(d.wind_speed_knots),
        single_or_none(d.wind_speed_ms),
    ensures
        d.canonical() == d,
{
}

/// BWC data made of numbers stay as they are.
pub proof fn bwc_numbers_stay(d: BwcData)
    requires
        number_or_none(d.latitude),
        number_or_none(d.longitude),
        single_or_none(d.true_bearing),
        single_or_none(d.magnetic_bearing),
        single_or_none(d.distance),
    ensures
        d.canonical() == d,
{
}

/// BOD data made of numbers stay as they are.
pub proof fn bod_numbers_stay(d: BodData)
    requires
        single_or_none(d.bearing_true),
        single_or_none(d.bearing_magnetic),
    ensures
        d.canonical() == d,
{
}

/// GSA data made of numbers stay as they are.
pub proof fn gsa_numbers_stay(d: GsaData)
    requires
        single_or_none(d.pdop),
        single_or_none(d.hdop),
    ensures
        d.canonical() == d,
{
}

/// GNS data made of numbers stay as they are.
pub proof fn gns_numbers_stay(d: GnsData)
    requires
        number_or_none(d.lat),
        number_or_none(d.lon),
        single_or_none(d.hdop),
        single_or_none(d.alt),
    ensures
        d.canonical() == d,
{
}

} // verus!
