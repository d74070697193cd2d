//! Heading sentences: HDT, HDG, HDM, VHW, ROT.
use crate::number::Real;
use crate::signalk::{entries, no_values, push_opt, with_opt, Entry, PathValue};
use crate::units::{
    divided, double, number, number_view, scaled, single, DEG_TO_RAD, KNOTS_TO_MS, SIXTY,
};
use vstd::prelude::*;

verus! {

/// Heading, true.
#[derive(Debug, Clone, Copy, PartialEq, Eq, Structural)]
pub struct HdtData {
    /// Degrees true.
    pub heading: Option<u32>,
}

/// What a HDT sentence reports.
pub open spec fn hdt_entries(d: HdtData) -> Seq<Entry> {
    let s = Seq::<Entry>::empty();
    let s = with_opt(
        s,
        "navigation.headingTrue"@,
        number_view(scaled(single(d.heading), DEG_TO_RAD)),
    );
    s
}

/// HDT: heading (true), in radians.
pub fn from_hdt(d: &HdtData) -> (out: Vec<PathValue>)
    ensures
        entries(out@) == hdt_entries(*d),
{
    let mut out = no_values();
    push_opt(&mut out, "navigation.headingTrue", number(scaled(single(d.heading), DEG_TO_RAD)));
    out
}

/// Heading, deviation and variation.
#[derive(Debug, Clone, Copy, PartialEq, Eq, Structural)]
pub struct HdgData {
    /// Degrees magnetic.
    pub heading: Option<u32>,
    /// Degrees, negative to the west.
    pub deviation: Option<u32>,
    /// Degrees, negative to the west.
    pub variation: Option<u32>,
}

/// What a HDG sentence reports.
pub open spec fn hdg_entries(d: HdgData) -> Seq<Entry> {
    let s = Seq::<Entry>::empty();
    let s = with_opt(
        s,
        "navigation.headingMagnetic"@,
        number_view(scaled(single(d.heading), DEG_TO_RAD)),
    );
    let s = with_opt(
        s,
        "navigation.magneticDeviation"@,
        number_view(scaled(single(d.deviation), DEG_TO_RAD)),
    );
    let s = with_opt(
        s,
        "navigation.magneticVariation"@,
        number_view(scaled(single(d.variation), DEG_TO_RAD)),
    );
    s
}

/// HDG: magnetic heading, deviation and variation, in radians.
pub fn from_hdg(d: &HdgData) -> (out: Vec<PathValue>)
    ensures
        entries(out@) == hdg_entries(*d),
{
    let mut out = no_values();
    push_opt(&mut out, "navigation.headingMagnetic", number(scaled(single(d.heading), DEG_TO_RAD)));
    push_opt(
        &mut out,
        "navigation.magneticDeviation",
        number(scaled(single(d.deviation), DEG_TO_RAD)),
    );
    push_opt(
        &mut out,
        "navigation.magneticVariation",
        number(scaled(single(d.variation), DEG_TO_RAD)),
    );
    out
}

/// Heading, magnetic.
#[derive(Debug, Clone, Copy, PartialEq, Eq, Structural)]
pub struct HdmData {
    /// Degrees magnetic.
    pub heading: Option<u32>,
}

/// What a HDM sentence reports.
pub open spec fn hdm_entries(d: HdmData) -> Seq<Entry> {
    let s = Seq::<Entry>::empty();
    let s = with_opt(
        s,
        "navigation.headingMagnetic"@,
        number_view(scaled(single(d.heading), DEG_TO_RAD)),
    );
    s
}

/// HDM: magnetic heading, in radians.
pub fn from_hdm(d: &HdmData) -> (out: Vec<PathValue>)
    ensures
        entries(out@) == hdm_entries(*d),
{
    let mut out = no_values();
    push_opt(&mut out, "navigation.headingMagnetic", number(scaled(single(d.heading), DEG_TO_RAD)));
    out
}

/// Water speed and heading.
#[derive(Debug, Clone, Copy, PartialEq, Eq, Structural)]
pub struct VhwData {
    /// Degrees true.
    pub heading_true: Option<Real>,
    /// Degrees magnetic.
    pub heading_magnetic: Option<Real>,
    /// Speed through the water, in knots.
    pub relative_speed_knots: Option<Real>,
}

/// What a VHW sentence reports.
pub open spec fn vhw_entries(d: VhwData) -> Seq<Entry> {
    let s = Seq::<Entry>::empty();
    let s = with_opt(
        s,
        "navigation.speedThroughWater"@,
        number_view(scaled(double(d.relative_speed_knots), KNOTS_TO_MS)),
    );
    let s = with_opt(
        s,
        "navigation.headingTrue"@,
        number_view(scaled(double(d.heading_true), DEG_TO_RAD)),
    );
    let s = with_opt(
        s,
        "navigation.headingMagnetic"@,
        number_view(scaled(double(d.heading_magnetic), DEG_TO_RAD)),
    );
    s
}

/// VHW: speed through the water in metres per second, headings in radians.
pub fn from_vhw(d: &VhwData) -> (out: Vec<PathValue>)
    ensures
        entries(out@) == vhw_entries(*d),
{
    let mut out = no_values();
    push_opt(
        &mut out,
        "navigation.speedThroughWater",
        number(scaled(double(d.relative_speed_knots), KNOTS_TO_MS)),
    );
    push_opt(
        &mut out,
        "navigation.headingTrue",
        number(scaled(double(d.heading_true), DEG_TO_RAD)),
    );
    push_opt(
        &mut out,
        "navigation.headingMagnetic",
        number(scaled(double(d.heading_magnetic), DEG_TO_RAD)),
    );
    out
}

/// Rate of turn.
#[derive(Debug, Clone, Copy, PartialEq, Eq, Structural)]
pub struct RotData {
    /// Degrees per minute, negative to port.
    pub rate: Option<u32>,
    /// Whether the sender vouches for the rate.
    pub valid: Option<bool>,
}

/// What a ROT sentence reports.
pub open spec fn rot_entries(d: RotData) -> Seq<Entry> {
    if d.valid == Some(false) {
        Seq::empty()
    } else {
        let s = Seq::<Entry>::empty();
        let s = with_opt(
            s,
            "navigation.rateOfTurn"@,
            number_view(divided(scaled(single(d.rate), DEG_TO_RAD), SIXTY)),
        );
        s
    }
}

/// ROT: rate of turn in radians per second, unless it is marked as not valid.
pub fn from_rot(d: &RotData) -> (out: Vec<PathValue>)
    ensures
        entries(out@) == rot_entries(*d),
{
    let mut out = no_values();
    if d.valid == Some(false) {
        return out;
    }
    push_opt(
        &mut out,
        "navigation.rateOfTurn",
        number(divided(scaled(single(d.rate), DEG_TO_RAD), SIXTY)),
    );
    out
}

} // verus!
