//! Position sentences: RMC, GGA, VTG, GLL.
use crate::clock::{
    millis_view, text_view as utc_text_view, utc_millis, utc_text, CalendarDate, ClockTime,
};
use crate::expr::Expr;
use crate::number::Real;
use crate::signalk::{
    entries, no_values, opt_view, position, position_3d, position_3d_view, position_view, push,
    push_opt, text, with, with_opt, Entry, PathValue, Value, ValueView,
};
use crate::units::{number, number_view, scaled, single, DEG_TO_RAD, KNOTS_TO_MS};
use vstd::prelude::*;

verus! {

/// The value of a position, where both coordinates are known.
pub open spec fn place_view(latitude: Option<Real>, longitude: Option<Real>) -> Option<ValueView> {
    match (latitude, longitude) {
        (Some(lat), Some(lon)) => Some(position_view(Expr::Lit(lat), Expr::Lit(lon))),
        _ => None,
    }
}

/// A position, where both coordinates are known.
pub fn place(latitude: Option<Real>, longitude: Option<Real>) -> (r: Option<Value>)
    ensures
        opt_view(r) == place_view(latitude, longitude),
{
    match (latitude, longitude) {
        (Some(lat), Some(lon)) => Some(position(Expr::Lit(lat), Expr::Lit(lon))),
        _ => None,
    }
}

/// The entries that tell a UTC time: the text, the Unix time in milliseconds and
/// the time zone, which is always UTC.
pub open spec fn time_entries(list: Seq<Entry>, iso: Seq<char>, millis: i64) -> Seq<Entry> {
    zone_entries(with(list, "navigation.datetime"@, ValueView::Text(iso)), millis)
}

/// The entries that tell a Unix time in milliseconds and its time zone, UTC.
pub open spec fn zone_entries(list: Seq<Entry>, millis: i64) -> Seq<Entry> {
    let s = with(list, "environment.time.millis"@, ValueView::Int(millis));
    let s = with(s, "environment.time.timezoneOffset"@, ValueView::Int(0));
    with(s, "environment.time.timezoneRegion"@, ValueView::Text("UTC"@))
}

/// Appends a Unix time in milliseconds and its time zone, UTC.
pub fn push_zone(out: &mut Vec<PathValue>, millis: i64)
    ensures
        entries(final(out)@) == zone_entries(entries(old(out)@), millis),
{
    push(out, "environment.time.millis", Value::Int(millis));
    push(out, "environment.time.timezoneOffset", Value::Int(0));
    push(out, "environment.time.timezoneRegion", text("UTC"));
}

/// Appends a UTC time: the text, the Unix time in milliseconds and the zone.
pub fn push_time(out: &mut Vec<PathValue>, iso: &str, millis: i64)
    ensures
        entries(final(out)@) == time_entries(entries(old(out)@), iso@, millis),
{
    push(out, "navigation.datetime", text(iso));
    push_zone(out, millis);
}

/// How a fix was obtained.
#[derive(Debug, Clone, Copy, PartialEq, Eq, Structural)]
pub enum RmcStatusOfFix {
    Autonomous,
    Differential,
    Invalid,
}

/// Recommended minimum specific GNSS data.
#[derive(Debug, Clone, Copy, PartialEq, Eq, Structural)]
pub struct RmcData {
    /// UTC.
    pub fix_time: Option<ClockTime>,
    pub fix_date: Option<CalendarDate>,
    pub status_of_fix: RmcStatusOfFix,
    /// Decimal degrees.
    pub lat: Option<Real>,
    /// Decimal degrees.
    pub lon: Option<Real>,
    /// Knots.
    pub speed_over_ground: Option<u32>,
    /// Degrees true.
    pub true_course: Option<u32>,
    /// Degrees, negative to the west.
    pub magnetic_variation: Option<u32>,
}

/// The date and time of a fix that is valid, with their text and Unix time.
pub open spec fn fix_instant(d: RmcData) -> Option<(Seq<char>, i64)> {
    match (d.fix_date, d.fix_time) {
        (Some(date), Some(time)) => {
            match (utc_text_view(date, time), millis_view(date, time)) {
                (Some(iso), Some(millis)) => if d.status_of_fix is Invalid {
                    None
                } else {
                    Some((iso, millis))
                },
                _ => None,
            }
        },
        _ => None,
    }
}

/// What a RMC sentence reports.
pub open spec fn rmc_entries(d: RmcData) -> Seq<Entry> {
    let s = Seq::<Entry>::empty();
    let s = with_opt(s, "navigation.position"@, place_view(d.lat, d.lon));
    let s = with_opt(
        s,
        "navigation.speedOverGround"@,
        number_view(scaled(single(d.speed_over_ground), KNOTS_TO_MS)),
    );
    let s = with_opt(
        s,
        "navigation.courseOverGroundTrue"@,
        number_view(scaled(single(d.true_course), DEG_TO_RAD)),
    );
    let s = with_opt(
        s,
        "navigation.magneticVariation"@,
        number_view(scaled(single(d.magnetic_variation), DEG_TO_RAD)),
    );
    match fix_instant(d) {
        Some((iso, millis)) => time_entries(s, iso, millis),
        None => s,
    }
}

/// RMC: position, speed and course over ground and magnetic variation; the time
/// too, where the fix is valid and has both a date and a time. GNSS time is UTC.
pub fn from_rmc(d: &RmcData) -> (out: Vec<PathValue>)
    ensures
        entries(out@) == rmc_entries(*d),
{
    let mut out = no_values();
    push_opt(&mut out, "navigation.position", place(d.lat, d.lon));
    push_opt(
        &mut out,
        "navigation.speedOverGround",
        number(scaled(single(d.speed_over_ground), KNOTS_TO_MS)),
    );
    push_opt(
        &mut out,
        "navigation.courseOverGroundTrue",
        number(scaled(single(d.true_course), DEG_TO_RAD)),
    );
    push_opt(
        &mut out,
        "navigation.magneticVariation",
        number(scaled(single(d.magnetic_variation), DEG_TO_RAD)),
    );
    let fix_valid = match d.status_of_fix {
        RmcStatusOfFix::Autonomous | RmcStatusOfFix::Differential => true,
        RmcStatusOfFix::Invalid => false,
    };
    if fix_valid {
        if let (Some(date), Some(time)) = (d.fix_date, d.fix_time) {
            let iso = utc_text(date, time, "%Y-%m-%dT%H:%M:%S%.3fZ");
            let millis = utc_millis(date, time);
            if let (Some(iso), Some(millis)) = (iso, millis) {
                push_time(&mut out, iso.as_str(), millis);
            }
        }
    }
    out
}

/// The quality of a GNSS fix.
#[derive(Debug, Clone, Copy, PartialEq, Eq, Structural)]
pub enum FixType {
    Invalid,
    Gps,
    DGps,
    Pps,
    Rtk,
    FloatRtk,
    Estimated,
    Manual,
    Sbas,
    Simulation,
}

impl FixType {
    /// The Signal K name of the fix quality.
    pub open spec fn quality(self) -> Seq<char> {
        match self {
            FixType::Invalid => "no GPS"@,
            FixType::Gps => "GNSS"@,
            FixType::DGps => "DGNSS"@,
            FixType::Pps => "PPS"@,
            FixType::Rtk => "RTK fixed"@,
            FixType::FloatRtk => "RTK float"@,
            FixType::Estimated => "estimated"@,
            FixType::Manual => "manual"@,
            FixType::Sbas => "DGNSS"@,
            FixType::Simulation => "simulation"@,
        }
    }

    /// The Signal K name of the fix quality.
    pub fn method_quality(self) -> (r: &'static str)
        ensures
            r@ == self.quality(),
    {
        match self {
            FixType::Invalid => "no GPS",
            FixType::Gps => "GNSS",
            FixType::DGps => "DGNSS",
            FixType::Pps => "PPS",
            FixType::Rtk => "RTK fixed",
            FixType::FloatRtk => "RTK float",
            FixType::Estimated => "estimated",
            FixType::Manual => "manual",
            FixType::Sbas => "DGNSS",
            FixType::Simulation => "simulation",
        }
    }
}

/// Global Positioning System fix data.
#[derive(Debug, Clone, Copy, PartialEq, Eq, Structural)]
pub struct GgaData {
    pub fix_type: Option<FixType>,
    /// Decimal degrees.
    pub latitude: Option<Real>,
    /// Decimal degrees.
    pub longitude: Option<Real>,
    pub fix_satellites: Option<u32>,
    pub hdop: Option<u32>,
    /// Metres.
    pub altitude: Option<u32>,
}

/// The value of a position with an altitude, where both coordinates are known.
pub open spec fn fix_place_view(
    latitude: Option<Real>,
    longitude: Option<Real>,
    altitude: Option<u32>,
) -> Option<ValueView> {
    match (latitude, longitude) {
        (Some(lat), Some(lon)) => Some(
            position_3d_view(Expr::Lit(lat), Expr::Lit(lon), single(altitude)),
        ),
        _ => None,
    }
}

/// A position with an altitude, where both coordinates are known.
pub fn fix_place(
    latitude: Option<Real>,
    longitude: Option<Real>,
    altitude: Option<u32>,
) -> (r: Option<Value>)
    ensures
        opt_view(r) == fix_place_view(latitude, longitude, altitude),
{
    match (latitude, longitude) {
        (Some(lat), Some(lon)) => Some(
            position_3d(Expr::Lit(lat), Expr::Lit(lon), single(altitude)),
        ),
        _ => None,
    }
}

/// What a GGA sentence reports.
pub open spec fn gga_entries(d: GgaData) -> Seq<Entry> {
    let s = Seq::<Entry>::empty();
    let s = with_opt(
        s,
        "navigation.position"@,
        fix_place_view(d.latitude, d.longitude, d.altitude),
    );
    let s = with_opt(
        s,
        "navigation.gnss.horizontalDilution"@,
        number_view(single(d.hdop)),
    );
    let s = with_opt(
        s,
        "navigation.gnss.satellites"@,
        match d.fix_satellites {
            Some(n) => Some(ValueView::Int(n as i64)),
            None => None,
        },
    );
    with_opt(
        s,
        "navigation.gnss.methodQuality"@,
        match d.fix_type {
            Some(fix) => Some(ValueView::Text(fix.quality())),
            None => None,
        },
    )
}

/// GGA: position with altitude, horizontal dilution, satellites and fix quality.
pub fn from_gga(d: &GgaData) -> (out: Vec<PathValue>)
    ensures
        entries(out@) == gga_entries(*d),
{
    let mut out = no_values();
    push_opt(&mut out, "navigation.position", fix_place(d.latitude, d.longitude, d.altitude));
    push_opt(&mut out, "navigation.gnss.horizontalDilution", number(single(d.hdop)));
    if let Some(n) = d.fix_satellites {
        push(&mut out, "navigation.gnss.satellites", Value::Int(n as i64));
    }
    if let Some(fix) = d.fix_type {
        push(&mut out, "navigation.gnss.methodQuality", text(fix.method_quality()));
    }
    out
}

/// Course and speed over ground.
#[derive(Debug, Clone, Copy, PartialEq, Eq, Structural)]
pub struct VtgData {
    /// Degrees true.
    pub true_course: Option<u32>,
    /// Knots.
    pub speed_over_ground: Option<u32>,
}

/// What a VTG sentence reports.
pub open spec fn vtg_entries(d: VtgData) -> Seq<Entry> {
    let s = Seq::<Entry>::empty();
    let s = with_opt(
        s,
        "navigation.courseOverGroundTrue"@,
        number_view(scaled(single(d.true_course), DEG_TO_RAD)),
    );
    let s = with_opt(
        s,
        "navigation.speedOverGround"@,
        number_view(scaled(single(d.speed_over_ground), KNOTS_TO_MS)),
    );
    s
}

/// VTG: course and speed over ground, in radians and metres per second.
pub fn from_vtg(d: &VtgData) -> (out: Vec<PathValue>)
    ensures
        entries(out@) == vtg_entries(*d),
{
    let mut out = no_values();
    push_opt(
        &mut out,
        "navigation.courseOverGroundTrue",
        number(scaled(single(d.true_course), DEG_TO_RAD)),
    );
    push_opt(
        &mut out,
        "navigation.speedOverGround",
        number(scaled(single(d.speed_over_ground), KNOTS_TO_MS)),
    );
    out
}

/// Geographic position.
#[derive(Debug, Clone, Copy, PartialEq, Eq, Structural)]
pub struct GllData {
    /// Decimal degrees.
    pub latitude: Option<Real>,
    /// Decimal degrees.
    pub longitude: Option<Real>,
    pub valid: bool,
}

/// What a GLL sentence reports.
pub open spec fn gll_entries(d: GllData) -> Seq<Entry> {
    if !d.valid {
        Seq::empty()
    } else {
        let s = Seq::<Entry>::empty();
        let s = with_opt(s, "navigation.position"@, place_view(d.latitude, d.longitude));
        s
    }
}

/// GLL: position. Nothing is reported of data marked as not valid.
pub fn from_gll(d: &GllData) -> (out: Vec<PathValue>)
    ensures
        entries(out@) == gll_entries(*d),
{
    let mut out = no_values();
    if !d.valid {
        return out;
    }
    push_opt(&mut out, "navigation.position", place(d.latitude, d.longitude));
    out
}

} // verus!
