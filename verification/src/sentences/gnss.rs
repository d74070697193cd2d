//! GNSS sentences: ZDA, GSA, GNS.
use super::position::{fix_place, fix_place_view, push_zone, zone_entries};
use crate::clock::{iso_8601, millis_view, utc_millis, CalendarDate, ClockTime};
use crate::number::Real;
use crate::signalk::{
    entries, no_values, push, push_opt, text, with, with_opt, Entry, PathValue, Value, ValueView,
};
use crate::text::{decimal_padded, padded};
use crate::units::{number, number_view, single};
use vstd::prelude::*;
use vstd::string::*;

verus! {

/// Time and date.
#[derive(Debug, Clone, Copy, PartialEq, Eq, Structural)]
pub struct ZdaData {
    pub utc_time: Option<ClockTime>,
    pub day: Option<u8>,
    pub month: Option<u8>,
    pub year: Option<u16>,
}

/// A UTC date and time in ISO 8601 with milliseconds.
pub open spec fn iso_text(year: u16, month: u8, day: u8, time: ClockTime) -> Seq<char> {
    iso_8601(
        padded(year as nat, 4),
        month as nat,
        day as nat,
        time.hour as nat,
        time.minute as nat,
        time.second as nat,
        (time.nanosecond / 1_000_000) as nat,
    )
}

/// Writes a UTC date and time in ISO 8601 with milliseconds.
pub fn iso_date_time(year: u16, month: u8, day: u8, time: ClockTime) -> (r: String)
    ensures
        r@ == iso_text(year, month, day, time),
{
    let ms: u32 = time.nanosecond / 1_000_000;
    let mut out = decimal_padded(year as u64, 4);
    out.append("-");
    out.append(decimal_padded(month as u64, 2).as_str());
    out.append("-");
    out.append(decimal_padded(day as u64, 2).as_str());
    out.append("T");
    out.append(decimal_padded(time.hour as u64, 2).as_str());
    out.append(":");
    out.append(decimal_padded(time.minute as u64, 2).as_str());
    out.append(":");
    out.append(decimal_padded(time.second as u64, 2).as_str());
    out.append(".");
    out.append(decimal_padded(ms as u64, 3).as_str());
    out.append("Z");
    out
}

/// What a ZDA sentence reports.
pub open spec fn zda_entries(d: ZdaData) -> Seq<Entry> {
    match (d.utc_time, d.day, d.month, d.year) {
        (Some(t), Some(day), Some(month), Some(year)) => {
            let s = with(
                Seq::empty(),
                "navigation.datetime"@,
                ValueView::Text(iso_text(year, month, day, t)),
            );
            let date = CalendarDate { year: year as i32, month: month as u32, day: day as u32 };
            match millis_view(date, t) {
                Some(millis) => zone_entries(s, millis),
                None => s,
            }
        },
        _ => Seq::empty(),
    }
}

/// ZDA: the UTC date and time as text and, where the date exists, as Unix time.
pub fn from_zda(d: &ZdaData) -> (out: Vec<PathValue>)
    ensures
        entries(out@) == zda_entries(*d),
{
    let mut out = no_values();
    if let (Some(t), Some(day), Some(month), Some(year)) = (d.utc_time, d.day, d.month, d.year) {
        let iso = iso_date_time(year, month, day, t);
        push(&mut out, "navigation.datetime", text(iso.as_str()));
        let date = CalendarDate { year: year as i32, month: month as u32, day: day as u32 };
        if let Some(millis) = utc_millis(date, t) {
            push_zone(&mut out, millis);
        }
    }
    out
}

/// GNSS dilution of precision and active satellites.
#[derive(Debug, Clone, Copy, PartialEq, Eq, Structural)]
pub struct GsaData {
    /// How many satellites are listed.
    pub fix_satellites: u32,
    pub pdop: Option<u32>,
    pub hdop: Option<u32>,
}

/// What a GSA sentence reports.
pub open spec fn gsa_entries(d: GsaData) -> Seq<Entry> {
    let s = Seq::<Entry>::empty();
    let s = with_opt(s, "navigation.gnss.horizontalDilution"@, number_view(single(d.hdop)));
    let s = with_opt(s, "navigation.gnss.positionDilution"@, number_view(single(d.pdop)));
    if d.fix_satellites > 0 {
        with(s, "navigation.gnss.satellites"@, ValueView::Int(d.fix_satellites as i64))
    } else {
        s
    }
}

/// GSA: horizontal and position dilution, and the number of satellites where
/// any is listed.
pub fn from_gsa(d: &GsaData) -> (out: Vec<PathValue>)
    ensures
        entries(out@) == gsa_entries(*d),
{
    let mut out = no_values();
    push_opt(&mut out, "navigation.gnss.horizontalDilution", number(single(d.hdop)));
    push_opt(&mut out, "navigation.gnss.positionDilution", number(single(d.pdop)));
    if d.fix_satellites > 0 {
        push(&mut out, "navigation.gnss.satellites", Value::Int(d.fix_satellites as i64));
    }
    out
}

/// Whether a GNSS receiver vouches for its fix.
#[derive(Debug, Clone, Copy, PartialEq, Eq, Structural)]
pub enum GnsNavigationStatus {
    Safe,
    Caution,
    Unsafe,
    NotValidForNavigation,
}

impl GnsNavigationStatus {
    /// The Signal K name of the fix quality.
    pub open spec fn quality(self) -> Seq<char> {
        match self {
            GnsNavigationStatus::Safe | GnsNavigationStatus::Caution => "GNSS"@,
            GnsNavigationStatus::Unsafe => "estimated"@,
            GnsNavigationStatus::NotValidForNavigation => "no GPS"@,
        }
    }

    /// The Signal K name of the fix quality.
    pub fn method_quality(self) -> (r: &'static str)
        ensures
            r@ == self.quality(),
    {
        match self {
            GnsNavigationStatus::Safe | GnsNavigationStatus::Caution => "GNSS",
            GnsNavigationStatus::Unsafe => "estimated",
            GnsNavigationStatus::NotValidForNavigation => "no GPS",
        }
    }
}

/// GNSS fix data of several constellations.
#[derive(Debug, Clone, Copy, PartialEq, Eq, Structural)]
pub struct GnsData {
    /// Decimal degrees.
    pub lat: Option<Real>,
    /// Decimal degrees.
    pub lon: Option<Real>,
    pub nsattelites: u16,
    pub hdop: Option<u32>,
    /// Metres.
    pub alt: Option<u32>,
    pub nav_status: Option<GnsNavigationStatus>,
}

/// What a GNS sentence reports.
pub open spec fn gns_entries(d: GnsData) -> Seq<Entry> {
    let s = Seq::<Entry>::empty();
    let s = with_opt(s, "navigation.position"@, fix_place_view(d.lat, d.lon, d.alt));
    let s = with_opt(s, "navigation.gnss.horizontalDilution"@, number_view(single(d.hdop)));
    let s = with(s, "navigation.gnss.satellites"@, ValueView::Int(d.nsattelites as i64));
    with_opt(
        s,
        "navigation.gnss.methodQuality"@,
        match d.nav_status {
            Some(status) => Some(ValueView::Text(status.quality())),
            None => None,
        },
    )
}

/// GNS: position with altitude, horizontal dilution, satellites and fix quality.
pub fn from_gns(d: &GnsData) -> (out: Vec<PathValue>)
    ensures
        entries(out@) == gns_entries(*d),
{
    let mut out = no_values();
    push_opt(&mut out, "navigation.position", fix_place(d.lat, d.lon, d.alt));
    push_opt(&mut out, "navigation.gnss.horizontalDilution", number(single(d.hdop)));
    push(&mut out, "navigation.gnss.satellites", Value::Int(d.nsattelites as i64));
    if let Some(status) = d.nav_status {
        push(&mut out, "navigation.gnss.methodQuality", text(status.method_quality()));
    }
    out
}

} // verus!
