//! Depth sentences: DPT, DBT, DBS, DBK.
use crate::expr::Expr;
use crate::number::Real;
use crate::signalk::{
    entries, no_values, push, push_opt, with, with_opt, Entry, PathValue, Value, ValueView,
};
use crate::units::{
    double, first_of, number, number_view, scaled, single, FATHOMS_TO_M, FEET_TO_M, ZERO,
};
use vstd::prelude::*;

verus! {

/// Depth of water.
#[derive(Debug, Clone, Copy, PartialEq, Eq, Structural)]
pub struct DptData {
    /// Metres below the transducer.
    pub water_depth: Option<Real>,
    /// Metres from the transducer to the waterline (positive) or to the keel (negative).
    pub offset: Option<Real>,
}

/// Where a depth that is corrected by `offset` is measured from: the water
/// surface for an offset that is not negative, else the keel.
pub open spec fn offset_path(offset: Real) -> Seq<char> {
    if (Real { bits: ZERO }).le(offset) {
        "environment.depth.belowSurface"@
    } else {
        "environment.depth.belowKeel"@
    }
}

/// The path under which a depth that is corrected by `offset` is reported.
pub fn path_for_offset(offset: Real) -> (r: &'static str)
    ensures
        r@ == offset_path(offset),
{
    if (Real { bits: ZERO }).at_most(offset) {
        "environment.depth.belowSurface"
    } else {
        "environment.depth.belowKeel"
    }
}

/// The entries for a depth below the transducer and the transducer's offset.
pub open spec fn depth_entries(depth: Option<Real>, offset: Option<Real>) -> Seq<Entry> {
    match depth {
        None => Seq::empty(),
        Some(m) => {
            let s = with(
                Seq::empty(),
                "environment.depth.belowTransducer"@,
                ValueView::Number(Expr::Lit(m)),
            );
            match offset {
                None => s,
                Some(o) => with(
                    s,
                    offset_path(o),
                    ValueView::Number(Expr::Lit(m).plus(Expr::Lit(o))),
                ),
            }
        },
    }
}

/// Depth below the transducer, and below the surface or the keel where the
/// transducer's offset is known.
pub fn from_depth(depth: Option<Real>, offset: Option<Real>) -> (out: Vec<PathValue>)
    ensures
        entries(out@) == depth_entries(depth, offset),
{
    let mut out = no_values();
    if let Some(m) = depth {
        push(&mut out, "environment.depth.belowTransducer", Value::Number(Expr::Lit(m)));
        if let Some(o) = offset {
            let adjusted = Expr::Lit(m).plus(Expr::Lit(o));
            push(&mut out, path_for_offset(o), Value::Number(adjusted));
        }
    }
    out
}

/// What a DPT sentence reports.
pub open spec fn dpt_entries(d: DptData) -> Seq<Entry> {
    depth_entries(d.water_depth, d.offset)
}

/// DPT: depth below the transducer, and below the surface or the keel.
pub fn from_dpt(d: &DptData) -> (out: Vec<PathValue>)
    ensures
        entries(out@) == dpt_entries(*d),
{
    from_depth(d.water_depth, d.offset)
}

/// Depth below the transducer.
#[derive(Debug, Clone, Copy, PartialEq, Eq, Structural)]
pub struct DbtData {
    pub depth_feet: Option<Real>,
    pub depth_meters: Option<Real>,
    pub depth_fathoms: Option<Real>,
}

/// What a DBT sentence reports.
pub open spec fn dbt_entries(d: DbtData) -> Seq<Entry> {
    let s = Seq::<Entry>::empty();
    let s = with_opt(s, "environment.depth.belowTransducer"@, number_view(first_of(
        first_of(double(d.depth_meters), scaled(double(d.depth_feet), FEET_TO_M)),
        scaled(double(d.depth_fathoms), FATHOMS_TO_M),
    )));
    s
}

/// DBT: depth below the transducer in metres; the metres field is preferred,
/// then feet, then fathoms.
pub fn from_dbt(d: &DbtData) -> (out: Vec<PathValue>)
    ensures
        entries(out@) == dbt_entries(*d),
{
    let mut out = no_values();
    push_opt(&mut out, "environment.depth.belowTransducer", number(first_of(
        first_of(double(d.depth_meters), scaled(double(d.depth_feet), FEET_TO_M)),
        scaled(double(d.depth_fathoms), FATHOMS_TO_M),
    )));
    out
}

/// Depth below the surface.
#[derive(Debug, Clone, Copy, PartialEq, Eq, Structural)]
pub struct DbsData {
    pub water_depth_feet: Option<u32>,
    pub water_depth_meters: Option<u32>,
    pub water_depth_fathoms: Option<u32>,
}

/// What a DBS sentence reports.
pub open spec fn dbs_entries(d: DbsData) -> Seq<Entry> {
    let s = Seq::<Entry>::empty();
    let s = with_opt(s, "environment.depth.belowSurface"@, number_view(first_of(
        first_of(single(d.water_depth_meters), scaled(single(d.water_depth_feet), FEET_TO_M)),
        scaled(single(d.water_depth_fathoms), FATHOMS_TO_M),
    )));
    s
}

/// DBS: depth below the surface in metres; the metres field is preferred,
/// then feet, then fathoms.
pub fn from_dbs(d: &DbsData) -> (out: Vec<PathValue>)
    ensures
        entries(out@) == dbs_entries(*d),
{
    let mut out = no_values();
    push_opt(&mut out, "environment.depth.belowSurface", number(first_of(
        first_of(single(d.water_depth_meters), scaled(single(d.water_depth_feet), FEET_TO_M)),
        scaled(single(d.water_depth_fathoms), FATHOMS_TO_M),
    )));
    out
}

/// Depth below the keel.
#[derive(Debug, Clone, Copy, PartialEq, Eq, Structural)]
pub struct DbkData {
    pub depth_feet: Option<Real>,
    pub depth_meters: Option<Real>,
    pub depth_fathoms: Option<Real>,
}

/// What a DBK sentence reports.
pub open spec fn dbk_entries(d: DbkData) -> Seq<Entry> {
    let s = Seq::<Entry>::empty();
    let s = with_opt(s, "environment.depth.belowKeel"@, number_view(first_of(
        first_of(double(d.depth_meters), scaled(double(d.depth_feet), FEET_TO_M)),
        scaled(double(d.depth_fathoms), FATHOMS_TO_M),
    )));
    s
}

/// DBK: depth below the keel in metres; the metres field is preferred,
/// then feet, then fathoms.
pub fn from_dbk(d: &DbkData) -> (out: Vec<PathValue>)
    ensures
        entries(out@) == dbk_entries(*d),
{
    let mut out = no_values();
    push_opt(&mut out, "environment.depth.belowKeel", number(first_of(
        first_of(double(d.depth_meters), scaled(double(d.depth_feet), FEET_TO_M)),
        scaled(double(d.depth_fathoms), FATHOMS_TO_M),
    )));
    out
}

} // verus!
