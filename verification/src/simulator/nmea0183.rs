//! Simulated data as NMEA 0183 sentences.
//!
//! A sentence is a template: the numbers in it are formulas, which whoever
//! sends it works out and writes. [`crate::framing::sentences`] then frames the texts.
use super::SimulatedValues;
use crate::clock::CalendarDate;
use crate::derived::geo::full_turn;
use crate::expr::{lit, num, Expr};
use crate::number::Real;
use crate::template::{push_template, template_views, PieceView, Template};
use crate::text::{decimal_padded, padded};
use crate::units::{
    BAR_TO_PA, FATHOMS_PER_METER, FEET_PER_METER, HUNDRED, KELVIN_OFFSET, KMH_PER_MS, MPS_TO_KNOTS,
    PI, SIXTY, ZERO,
};
use vstd::prelude::*;
use vstd::string::*;

verus! {

/// 180.
pub const HALF_TURN_DEGREES: u64 = 0x4066_8000_0000_0000;

/// 1000.
pub const THOUSAND: u64 = 0x408F_4000_0000_0000;

/// A moment in UTC.
#[derive(Debug, Clone, Copy)]
pub struct Moment {
    pub date: CalendarDate,
    pub hour: u32,
    pub minute: u32,
    /// Seconds since the Unix epoch.
    pub unix_seconds: i64,
    /// Milliseconds of the current second.
    pub millis: u32,
}

/// An angle in radians, in degrees.
#[verifier::allow_in_spec]
pub fn in_degrees(angle: Expr) -> (r: Expr)
    returns
        angle.times(lit(HALF_TURN_DEGREES)).over(lit(PI)),
{
    angle.times(lit(HALF_TURN_DEGREES)).over(lit(PI))
}

/// A speed in metres per second, in knots.
#[verifier::allow_in_spec]
pub fn in_knots(speed: Real) -> (r: Expr)
    returns
        num(speed).times(lit(MPS_TO_KNOTS)),
{
    num(speed).times(lit(MPS_TO_KNOTS))
}

/// The seconds of the current minute, with their fraction.
#[verifier::allow_in_spec]
pub fn seconds_of(at: Moment) -> (r: Expr)
    returns
        Expr::Int(at.unix_seconds).remainder(lit(SIXTY)).plus(
            Expr::Uint(at.millis as u64).over(lit(THOUSAND)),
        ),
{
    Expr::Int(at.unix_seconds).remainder(lit(SIXTY)).plus(
        Expr::Uint(at.millis as u64).over(lit(THOUSAND)),
    )
}

/// The whole degrees of a coordinate.
#[verifier::allow_in_spec]
pub fn whole_degrees(deg: Real) -> (r: Expr)
    returns
        num(deg).absolute().floor().to_word(),
{
    num(deg).absolute().floor().to_word()
}

/// The minutes of a coordinate.
#[verifier::allow_in_spec]
pub fn minutes_of(deg: Real) -> (r: Expr)
    returns
        num(deg).absolute().minus(whole_degrees(deg)).times(lit(SIXTY)),
{
    num(deg).absolute().minus(whole_degrees(deg)).times(lit(SIXTY))
}

/// The side of zero that a number is on; zero counts as positive.
pub open spec fn side(x: Real, positive: Seq<char>, negative: Seq<char>) -> Seq<char> {
    if (Real { bits: ZERO }).le(x) {
        positive
    } else {
        negative
    }
}

/// The side of zero that a number is on; zero counts as positive.
pub fn hemisphere(x: Real, positive: &'static str, negative: &'static str) -> (r: &'static str)
    ensures
        r@ == side(x, positive@, negative@),
{
    if (Real { bits: ZERO }).at_most(x) {
        positive
    } else {
        negative
    }
}

/// A number with a fixed number of decimals.
pub open spec fn fixed(value: Expr, decimals: usize) -> PieceView {
    PieceView::Number { value, decimals, width: 0 }
}

/// A coordinate in degrees and minutes, with the given number of digits for the degrees.
pub open spec fn coordinate(deg: Real, width: usize) -> Seq<PieceView> {
    seq![
        PieceView::Whole { value: whole_degrees(deg), width },
        PieceView::Number { value: minutes_of(deg), decimals: 4, width: 7 },
    ]
}

fn to_nmea(deg: Real, width: usize) -> (t: Template)
    ensures
        t@ == coordinate(deg, width),
{
    let mut t = Template::new();
    t.whole(whole_degrees(deg), width);
    t.padded(minutes_of(deg), 4, 7);
    assert(t@ =~= coordinate(deg, width));
    t
}

/// A latitude as DDMM.MMMM, and its hemisphere.
pub fn deg_to_nmea_lat(deg: Real) -> (r: (Template, &'static str))
    ensures
        r.0@ == coordinate(deg, 2),
        r.1@ == side(deg, "N"@, "S"@),
{
    (to_nmea(deg, 2), hemisphere(deg, "N", "S"))
}

/// A longitude as DDDMM.MMMM, and its hemisphere.
pub fn deg_to_nmea_lon(deg: Real) -> (r: (Template, &'static str))
    ensures
        r.0@ == coordinate(deg, 3),
        r.1@ == side(deg, "E"@, "W"@),
{
    (to_nmea(deg, 3), hemisphere(deg, "E", "W"))
}

/// Latitude and longitude with their hemispheres, behind other pieces.
pub open spec fn with_position(list: Seq<PieceView>, values: SimulatedValues) -> Seq<PieceView> {
    (list + coordinate(values.latitude, 2)).push(PieceView::Text(","@)).push(
        PieceView::Text(side(values.latitude, "N"@, "S"@)),
    ).push(PieceView::Text(","@)) + coordinate(values.longitude, 3).push(
        PieceView::Text(","@),
    ).push(PieceView::Text(side(values.longitude, "E"@, "W"@)))
}

fn push_position(t: &mut Template, values: &SimulatedValues)
    ensures
        final(t)@ == with_position(old(t)@, *values),
{
    let (lat, lat_side) = deg_to_nmea_lat(values.latitude);
    let (lon, lon_side) = deg_to_nmea_lon(values.longitude);
    t.append(lat);
    t.text(",");
    t.text(lat_side);
    t.text(",");
    t.append(lon);
    t.text(",");
    t.text(lon_side);
    assert(t@ =~= with_position(old(t)@, *values));
}

/// The time of day as HHMMSS.SS, behind other pieces.
pub open spec fn with_time(list: Seq<PieceView>, at: Moment) -> Seq<PieceView> {
    list.push(PieceView::Text(padded(at.hour as nat, 2))).push(
        PieceView::Text(padded(at.minute as nat, 2)),
    ).push(PieceView::Number { value: seconds_of(at), decimals: 2, width: 5 })
}

fn push_time(t: &mut Template, at: Moment)
    ensures
        final(t)@ == with_time(old(t)@, at),
{
    t.text(decimal_padded(at.hour as u64, 2).as_str());
    t.text(decimal_padded(at.minute as u64, 2).as_str());
    t.padded(seconds_of(at), 2, 5);
}

/// The last two digits of a year.
pub open spec fn short_year(year: i32) -> nat {
    (year % 100) as nat
}

/// The date as DDMMYY, behind other pieces.
pub open spec fn with_date(list: Seq<PieceView>, date: CalendarDate) -> Seq<PieceView> {
    list.push(PieceView::Text(padded(date.day as nat, 2))).push(
        PieceView::Text(padded(date.month as nat, 2)),
    ).push(PieceView::Text(padded(short_year(date.year), 2)))
}

fn push_date(t: &mut Template, date: CalendarDate)
    ensures
        final(t)@ == with_date(old(t)@, date),
{
    t.text(decimal_padded(date.day as u64, 2).as_str());
    t.text(decimal_padded(date.month as u64, 2).as_str());
    let year: i64 = date.year as i64 + 3_000_000_000;
    let short: u64 = (year % 100) as u64;
    assert(short == short_year(date.year)) by {
        vstd::arithmetic::div_mod::lemma_mod_multiples_vanish(30_000_000, date.year as int, 100);
    }
    t.text(decimal_padded(short, 2).as_str());
}

/// RMC: the position, course, speed and time.
pub open spec fn rmc_pieces(
    values: SimulatedValues,
    talker: Seq<char>,
    at: Moment,
) -> Seq<PieceView> {
    let p0 = seq![PieceView::Text(talker)].push(PieceView::Text("RMC,"@));
    let p1 = with_time(p0, at).push(PieceView::Text(",A,"@));
    let p2 = with_position(p1, values).push(PieceView::Text(","@)).push(
        fixed(in_knots(values.sog_mps), 1),
    ).push(PieceView::Text(","@)).push(
        fixed(in_degrees(num(values.cog_rad)), 1),
    ).push(PieceView::Text(","@));
    with_date(p2, at.date).push(PieceView::Text(","@)).push(
        fixed(in_degrees(num(values.magnetic_variation_rad).absolute()), 1),
    ).push(PieceView::Text(","@)).push(
        PieceView::Text(side(values.magnetic_variation_rad, "E"@, "W"@)),
    ).push(PieceView::Text(",A"@))
}

/// RMC: the position, course, speed and time.
pub fn rmc(values: &SimulatedValues, talker: &str, at: Moment) -> (t: Template)
    ensures
        t@ == rmc_pieces(*values, talker@, at),
{
    let mut t = Template::of(talker);
    t.text("RMC,");
    push_time(&mut t, at);
    t.text(",A,");
    push_position(&mut t, values);
    t.text(",");
    t.number(in_knots(values.sog_mps), 1);
    t.text(",");
    t.number(in_degrees(num(values.cog_rad)), 1);
    t.text(",");
    push_date(&mut t, at.date);
    t.text(",");
    t.number(in_degrees(num(values.magnetic_variation_rad).absolute()), 1);
    t.text(",");
    t.text(hemisphere(values.magnetic_variation_rad, "E", "W"));
    t.text(",A");
    t
}

/// GGA: the position and time of a fix with eight satellites.
pub open spec fn gga_pieces(
    values: SimulatedValues,
    talker: Seq<char>,
    at: Moment,
) -> Seq<PieceView> {
    let p0 = seq![PieceView::Text(talker)].push(PieceView::Text("GGA,"@));
    let p1 = with_time(p0, at).push(PieceView::Text(","@));
    with_position(p1, values).push(PieceView::Text(",1,08,1.2,0.0,M,0.0,M,,"@))
}

/// GGA: the position and time of a fix with eight satellites.
pub fn gga(values: &SimulatedValues, talker: &str, at: Moment) -> (t: Template)
    ensures
        t@ == gga_pieces(*values, talker@, at),
{
    let mut t = Template::of(talker);
    t.text("GGA,");
    push_time(&mut t, at);
    t.text(",");
    push_position(&mut t, values);
    t.text(",1,08,1.2,0.0,M,0.0,M,,");
    t
}

/// HDG: the magnetic heading and the variation.
pub open spec fn hdg_pieces(values: SimulatedValues, talker: Seq<char>) -> Seq<PieceView> {
    seq![PieceView::Text(talker)].push(PieceView::Text("HDG,"@)).push(
        fixed(in_degrees(num(values.heading_magnetic_rad)), 1),
    ).push(PieceView::Text(",,,,"@)).push(
        fixed(in_degrees(num(values.magnetic_variation_rad).absolute()), 1),
    ).push(PieceView::Text(","@)).push(
        PieceView::Text(side(values.magnetic_variation_rad, "E"@, "W"@)),
    )
}

/// HDG: the magnetic heading and the variation.
pub fn hdg(values: &SimulatedValues, talker: &str) -> (t: Template)
    ensures
        t@ == hdg_pieces(*values, talker@),
{
    let mut t = Template::of(talker);
    t.text("HDG,");
    t.number(in_degrees(num(values.heading_magnetic_rad)), 1);
    t.text(",,,,");
    t.number(in_degrees(num(values.magnetic_variation_rad).absolute()), 1);
    t.text(",");
    t.text(hemisphere(values.magnetic_variation_rad, "E", "W"));
    t
}

/// VHW: the heading and the speed through water.
pub open spec fn vhw_pieces(values: SimulatedValues, talker: Seq<char>) -> Seq<PieceView> {
    seq![PieceView::Text(talker)].push(PieceView::Text("VHW,"@)).push(
        fixed(
            in_degrees(
                full_turn(
                    num(values.heading_magnetic_rad).plus(num(values.magnetic_variation_rad)),
                ),
            ),
            1,
        ),
    ).push(PieceView::Text(",T,"@)).push(
        fixed(in_degrees(num(values.heading_magnetic_rad)), 1),
    ).push(PieceView::Text(",M,"@)).push(
        fixed(in_knots(values.stw_mps), 1),
    ).push(PieceView::Text(",N,"@)).push(
        fixed(num(values.stw_mps).times(lit(KMH_PER_MS)), 1),
    ).push(PieceView::Text(",K"@))
}

/// VHW: the heading and the speed through water.
pub fn vhw(values: &SimulatedValues, talker: &str) -> (t: Template)
    ensures
        t@ == vhw_pieces(*values, talker@),
{
    let mut t = Template::of(talker);
    t.text("VHW,");
    t.number(
        in_degrees(
            full_turn(num(values.heading_magnetic_rad).plus(num(values.magnetic_variation_rad))),
        ),
        1,
    );
    t.text(",T,");
    t.number(in_degrees(num(values.heading_magnetic_rad)), 1);
    t.text(",M,");
    t.number(in_knots(values.stw_mps), 1);
    t.text(",N,");
    t.number(num(values.stw_mps).times(lit(KMH_PER_MS)), 1);
    t.text(",K");
    t
}

/// MWV: the apparent wind.
pub open spec fn mwv_pieces(values: SimulatedValues, talker: Seq<char>) -> Seq<PieceView> {
    seq![PieceView::Text(talker)].push(PieceView::Text("MWV,"@)).push(
        fixed(in_degrees(num(values.wind_angle_apparent_rad)), 1),
    ).push(PieceView::Text(",R,"@)).push(
        fixed(in_knots(values.wind_speed_apparent_mps), 1),
    ).push(PieceView::Text(",N,A"@))
}

/// MWV: the apparent wind.
pub fn mwv(values: &SimulatedValues, talker: &str) -> (t: Template)
    ensures
        t@ == mwv_pieces(*values, talker@),
{
    let mut t = Template::of(talker);
    t.text("MWV,");
    t.number(in_degrees(num(values.wind_angle_apparent_rad)), 1);
    t.text(",R,");
    t.number(in_knots(values.wind_speed_apparent_mps), 1);
    t.text(",N,A");
    t
}

/// DBT: the depth in three units.
pub open spec fn dbt_pieces(values: SimulatedValues, talker: Seq<char>) -> Seq<PieceView> {
    seq![PieceView::Text(talker)].push(PieceView::Text("DBT,"@)).push(
        fixed(num(values.depth_below_transducer_m).times(lit(FEET_PER_METER)), 1),
    ).push(PieceView::Text(",f,"@)).push(
        fixed(num(values.depth_below_transducer_m), 1),
    ).push(PieceView::Text(",M,"@)).push(
        fixed(num(values.depth_below_transducer_m).times(lit(FATHOMS_PER_METER)), 1),
    ).push(PieceView::Text(",F"@))
}

/// DBT: the depth in three units.
pub fn dbt(values: &SimulatedValues, talker: &str) -> (t: Template)
    ensures
        t@ == dbt_pieces(*values, talker@),
{
    let mut t = Template::of(talker);
    t.text("DBT,");
    t.number(num(values.depth_below_transducer_m).times(lit(FEET_PER_METER)), 1);
    t.text(",f,");
    t.number(num(values.depth_below_transducer_m), 1);
    t.text(",M,");
    t.number(num(values.depth_below_transducer_m).times(lit(FATHOMS_PER_METER)), 1);
    t.text(",F");
    t
}

/// MTW: the water temperature.
pub open spec fn mtw_pieces(values: SimulatedValues, talker: Seq<char>) -> Seq<PieceView> {
    seq![PieceView::Text(talker)].push(PieceView::Text("MTW,"@)).push(
        fixed(num(values.water_temperature_k).minus(lit(KELVIN_OFFSET)), 1),
    ).push(PieceView::Text(",C"@))
}

/// MTW: the water temperature.
pub fn mtw(values: &SimulatedValues, talker: &str) -> (t: Template)
    ensures
        t@ == mtw_pieces(*values, talker@),
{
    let mut t = Template::of(talker);
    t.text("MTW,");
    t.number(num(values.water_temperature_k).minus(lit(KELVIN_OFFSET)), 1);
    t.text(",C");
    t
}

/// MDA: pressure, air temperature and humidity.
pub open spec fn mda_pieces(values: SimulatedValues, talker: Seq<char>) -> Seq<PieceView> {
    seq![PieceView::Text(talker)].push(PieceView::Text("MDA,,I,"@)).push(
        fixed(num(values.pressure_pa).over(lit(BAR_TO_PA)), 4),
    ).push(PieceView::Text(",B,"@)).push(
        fixed(num(values.air_temperature_k).minus(lit(KELVIN_OFFSET)), 1),
    ).push(PieceView::Text(",C,,,"@)).push(
        fixed(num(values.humidity_ratio).times(lit(HUNDRED)), 1),
    ).push(PieceView::Text(",,,,,,,,,"@))
}

/// MDA: pressure, air temperature and humidity.
pub fn mda(values: &SimulatedValues, talker: &str) -> (t: Template)
    ensures
        t@ == mda_pieces(*values, talker@),
{
    let mut t = Template::of(talker);
    t.text("MDA,,I,");
    t.number(num(values.pressure_pa).over(lit(BAR_TO_PA)), 4);
    t.text(",B,");
    t.number(num(values.air_temperature_k).minus(lit(KELVIN_OFFSET)), 1);
    t.text(",C,,,");
    t.number(num(values.humidity_ratio).times(lit(HUNDRED)), 1);
    t.text(",,,,,,,,,");
    t
}

/// XDR: pitch and roll.
pub open spec fn xdr_pieces(values: SimulatedValues, talker: Seq<char>) -> Seq<PieceView> {
    seq![PieceView::Text(talker)].push(PieceView::Text("XDR,A,"@)).push(
        fixed(in_degrees(num(values.pitch_rad)), 1),
    ).push(PieceView::Text(",D,PITCH,A,"@)).push(
        fixed(in_degrees(num(values.roll_rad)), 1),
    ).push(PieceView::Text(",D,ROLL"@))
}

/// XDR: pitch and roll.
pub fn xdr(values: &SimulatedValues, talker: &str) -> (t: Template)
    ensures
        t@ == xdr_pieces(*values, talker@),
{
    let mut t = Template::of(talker);
    t.text("XDR,A,");
    t.number(in_degrees(num(values.pitch_rad)), 1);
    t.text(",D,PITCH,A,");
    t.number(in_degrees(num(values.roll_rad)), 1);
    t.text(",D,ROLL");
    t
}

/// The sentences of a step: position, heading and speed, the environment if it is wanted, and
/// the attitude.
pub open spec fn step_sentences(
    values: SimulatedValues,
    talker: Seq<char>,
    enable_environment: bool,
    at: Moment,
) -> Seq<Seq<PieceView>> {
    let navigation = seq![
        rmc_pieces(values, talker, at),
        gga_pieces(values, talker, at),
        hdg_pieces(values, talker),
        vhw_pieces(values, talker),
    ];
    let environment = if enable_environment {
        navigation.push(mwv_pieces(values, talker)).push(dbt_pieces(values, talker)).push(
            mtw_pieces(values, talker),
        ).push(mda_pieces(values, talker))
    } else {
        navigation
    };
    environment.push(xdr_pieces(values, talker))
}

/// The sentences of a step, without their frames.
pub fn encode(values: &SimulatedValues, talker: &str, enable_environment: bool, at: Moment) -> (out:
    Vec<Template>)
    ensures
        template_views(out@) == step_sentences(*values, talker@, enable_environment, at),
{
    let mut out: Vec<Template> = Vec::new();
    assert(template_views(out@) =~= Seq::empty());
    push_template(&mut out, rmc(values, talker, at));
    push_template(&mut out, gga(values, talker, at));
    push_template(&mut out, hdg(values, talker));
    push_template(&mut out, vhw(values, talker));
    if enable_environment {
        push_template(&mut out, mwv(values, talker));
        push_template(&mut out, dbt(values, talker));
        push_template(&mut out, mtw(values, talker));
        push_template(&mut out, mda(values, talker));
    }
    push_template(&mut out, xdr(values, talker));
    assert(template_views(out@) =~= step_sentences(*values, talker@, enable_environment, at));
    out
}

/// Every sentence of a step starts with the talker; there are nine with the environment and five
/// without it.
pub proof fn sentences_name_the_talker(
    values: SimulatedValues,
    talker: Seq<char>,
    enable_environment: bool,
    at: Moment,
)
    ensures
        ({
            let list = step_sentences(values, talker, enable_environment, at);
            &&& list.len() == (if enable_environment {
                9int
            } else {
                5
            })
            &&& forall|i: int|
                0 <= i < list.len() ==> (#[trigger] list[i]).len() > 0 && list[i][0]
                    == PieceView::Text(talker)
        }),
{
}

} // verus!
