//! Derived motion: leeway, current, speed made good and wind over ground.
use crate::derived::geo::full_turn;
use crate::derived::{
    agree, member_number, number_of, opt_entries, path_views, Values,
};
use crate::expr::{lit, num, Expr};
use crate::incoming::ReadingView;
use crate::number::Real;
use crate::signalk::{no_values, push, with, Entry, PathValue, Value, ValueView};
use crate::units::{PI, TWO, ZERO};
use vstd::prelude::*;

verus! {

/// Leeway coefficient of the hull: 10.0.
pub const LEEWAY_FACTOR: u64 = 0x4024_0000_0000_0000;

/// Slowest speed with a meaningful leeway, in m/s: 0.5.
pub const LEEWAY_MIN_SPEED: u64 = 0x3FE0_0000_0000_0000;

/// Speeds below this count as none, in m/s: 1e-09.
pub const STANDSTILL: u64 = 0x3E11_2E0B_E826_D695;

/// Slowest speed that the drift is compared with, in m/s: 0.01.
pub const IMPACT_MIN_SPEED: u64 = 0x3F84_7AE1_47AE_147B;

/// Derives the leeway angle from heel and speed: positive heel to starboard slides to
/// port.
#[derive(Debug, Clone, Copy)]
pub struct Leeway;

impl Leeway {
    pub fn name(&self) -> (r: &'static str)
        ensures
            r@ == "leeway"@,
    {
        "leeway"
    }

    /// The paths that the result depends on.
    pub open spec fn input_paths() -> Seq<Seq<char>> {
        seq![
            "navigation.attitude"@,
            "navigation.speedThroughWater"@,
        ]
    }

    /// The paths that the result depends on.
    pub fn inputs(&self) -> (r: Vec<&'static str>)
        ensures
            path_views(r@) == Leeway::input_paths(),
    {
        let mut out: Vec<&'static str> = Vec::new();
        out.push("navigation.attitude");
        out.push("navigation.speedThroughWater");
        assert(path_views(out@) =~= Leeway::input_paths());
        out
    }

    pub open spec fn derived(values: Seq<ReadingView>) -> Option<Seq<Entry>> {
        match (
            member_number(values, "navigation.attitude"@, "roll"@),
            number_of(values, "navigation.speedThroughWater"@),
        ) {
            (Some(roll), Some(stw)) => {
                if stw.lt(Real { bits: LEEWAY_MIN_SPEED }) {
                    None
                } else {
                    let s = Seq::<Entry>::empty();
                    let s = with(
                        s,
                        "navigation.leewayAngleHeel"@,
                        ValueView::Number(
                            lit(LEEWAY_FACTOR).times(num(roll)).over(num(stw).times(num(stw))),
                        ),
                    );
                    Some(s)
                }
            },
            _ => None,
        }
    }

    pub fn calculate(&self, values: &Values) -> (r: Option<Vec<PathValue>>)
        ensures
            opt_entries(r) == Leeway::derived(values@),
    {
        match (
            values.member_number("navigation.attitude", "roll"),
            values.number("navigation.speedThroughWater"),
        ) {
            (Some(roll), Some(stw)) => {
                if stw.less_than(Real { bits: LEEWAY_MIN_SPEED }) {
                    return None;
                }
                let mut out = no_values();
                push(
                    &mut out,
                    "navigation.leewayAngleHeel",
                    Value::Number(
                        lit(LEEWAY_FACTOR).times(num(roll)).over(num(stw).times(num(stw))),
                    ),
                );
                Some(out)
            },
            _ => None,
        }
    }
}

/// Course over ground relative to the heading.
#[verifier::allow_in_spec]
pub fn crab_angle(m: CurrentInput) -> (r: Expr)
    returns
        num(m.cog_true).minus(num(m.heading_magnetic)),
{
    num(m.cog_true).minus(num(m.heading_magnetic))
}

/// Speed of the current, by the law of cosines.
#[verifier::allow_in_spec]
pub fn drift(m: CurrentInput) -> (r: Expr)
    returns
        num(m.sog).times(num(m.sog)).plus(num(m.stw).times(num(m.stw))).minus(
            lit(TWO).times(num(m.stw)).times(num(m.sog)).times(crab_angle(m).cos()),
        ).max(
            lit(ZERO),
        ).sqrt(),
{
    num(m.sog).times(num(m.sog)).plus(num(m.stw).times(num(m.stw))).minus(
        lit(TWO).times(num(m.stw)).times(num(m.sog)).times(crab_angle(m).cos()),
    ).max(
        lit(ZERO),
    ).sqrt()
}

/// Direction the current flows towards, magnetic.
#[verifier::allow_in_spec]
pub fn set_magnetic(m: CurrentInput) -> (r: Expr)
    returns
        full_turn(
            num(m.sog).times(crab_angle(m).sin()).atan2(
                num(m.stw).minus(num(m.sog).times(crab_angle(m).cos())),
            ).plus(
                lit(PI),
            ),
        ),
{
    full_turn(
        num(m.sog).times(crab_angle(m).sin()).atan2(
            num(m.stw).minus(num(m.sog).times(crab_angle(m).cos())),
        ).plus(
            lit(PI),
        ),
    )
}

/// Direction the current flows towards, true.
#[verifier::allow_in_spec]
pub fn set_true(m: CurrentInput) -> (r: Expr)
    returns
        full_turn(set_magnetic(m).plus(num(m.variation))),
{
    full_turn(set_magnetic(m).plus(num(m.variation)))
}

/// What set and drift are derived from.
#[derive(Debug, Clone, Copy, PartialEq, Eq, Structural)]
pub struct CurrentInput {
    pub heading_magnetic: Real,
    pub cog_true: Real,
    /// Speed through the water.
    pub stw: Real,
    /// Speed over ground.
    pub sog: Real,
    pub variation: Real,
}

/// Derives set and drift of the current from the motion over ground and through the
/// water. At a standstill they are zero; the impact on the vessel's speed is left out
/// where there is hardly any.
#[derive(Debug, Clone, Copy)]
pub struct SetDrift;

impl SetDrift {
    pub fn name(&self) -> (r: &'static str)
        ensures
            r@ == "setDrift"@,
    {
        "setDrift"
    }

    /// The paths that the result depends on.
    pub open spec fn input_paths() -> Seq<Seq<char>> {
        seq![
            "navigation.headingMagnetic"@,
            "navigation.courseOverGroundTrue"@,
            "navigation.speedThroughWater"@,
            "navigation.speedOverGround"@,
            "navigation.magneticVariation"@,
        ]
    }

    /// The paths that the result depends on.
    pub fn inputs(&self) -> (r: Vec<&'static str>)
        ensures
            path_views(r@) == SetDrift::input_paths(),
    {
        let mut out: Vec<&'static str> = Vec::new();
        out.push("navigation.headingMagnetic");
        out.push("navigation.courseOverGroundTrue");
        out.push("navigation.speedThroughWater");
        out.push("navigation.speedOverGround");
        out.push("navigation.magneticVariation");
        assert(path_views(out@) =~= SetDrift::input_paths());
        out
    }

    pub open spec fn derived(values: Seq<ReadingView>) -> Option<Seq<Entry>> {
        match (
            number_of(values, "navigation.headingMagnetic"@),
            number_of(values, "navigation.courseOverGroundTrue"@),
            number_of(values, "navigation.speedThroughWater"@),
            number_of(values, "navigation.speedOverGround"@),
            number_of(values, "navigation.magneticVariation"@),
        ) {
            (Some(hdg), Some(cog), Some(stw), Some(sog), Some(variation)) => {
                if !hdg.finite() || !cog.finite() || !stw.finite() || !sog.finite()
                    || !variation.finite() {
                    None
                } else {
                    if sog.unsigned().lt(Real { bits: STANDSTILL }) && stw.unsigned().lt(
                        Real { bits: STANDSTILL },
                    ) {
                        let s = Seq::<Entry>::empty();
                        let s = with(s, "environment.current.drift"@, ValueView::Number(lit(ZERO)));
                        let s = with(
                            s,
                            "environment.current.setTrue"@,
                            ValueView::Number(lit(ZERO)),
                        );
                        let s = with(
                            s,
                            "environment.current.setMagnetic"@,
                            ValueView::Number(lit(ZERO)),
                        );
                        Some(s)
                    } else {
                        let m = CurrentInput {
                            heading_magnetic: hdg,
                            cog_true: cog,
                            stw,
                            sog,
                            variation,
                        };
                        let s = Seq::<Entry>::empty();
                        let s = with(s, "environment.current.drift"@, ValueView::Number(drift(m)));
                        let s = with(
                            s,
                            "environment.current.setTrue"@,
                            ValueView::Number(set_true(m)),
                        );
                        let s = with(
                            s,
                            "environment.current.setMagnetic"@,
                            ValueView::Number(set_magnetic(m)),
                        );
                        let s = if (Real { bits: IMPACT_MIN_SPEED }).lt(stw) {
                            with(
                                s,
                                "environment.current.driftImpact"@,
                                ValueView::Number(drift(m).over(num(stw))),
                            )
                        } else {
                            s
                        };
                        Some(s)
                    }
                }
            },
            _ => None,
        }
    }

    pub fn calculate(&self, values: &Values) -> (r: Option<Vec<PathValue>>)
        ensures
            opt_entries(r) == SetDrift::derived(values@),
    {
        match (
            values.number("navigation.headingMagnetic"),
            values.number("navigation.courseOverGroundTrue"),
            values.number("navigation.speedThroughWater"),
            values.number("navigation.speedOverGround"),
            values.number("navigation.magneticVariation"),
        ) {
            (Some(hdg), Some(cog), Some(stw), Some(sog), Some(variation)) => {
                if !hdg.is_finite() || !cog.is_finite() || !stw.is_finite()
                    || !sog.is_finite() || !variation.is_finite() {
                    return None;
                }
                if sog.abs().less_than(Real { bits: STANDSTILL }) && stw.abs().less_than(
                    Real { bits: STANDSTILL },
                ) {
                    let mut out = no_values();
                    push(&mut out, "environment.current.drift", Value::Number(lit(ZERO)));
                    push(&mut out, "environment.current.setTrue", Value::Number(lit(ZERO)));
                    push(&mut out, "environment.current.setMagnetic", Value::Number(lit(ZERO)));
                    return Some(out);
                }
                let m = CurrentInput {
                            heading_magnetic: hdg,
                            cog_true: cog,
                            stw,
                            sog,
                            variation,
                        };
                let mut out = no_values();
                push(&mut out, "environment.current.drift", Value::Number(drift(m)));
                push(&mut out, "environment.current.setTrue", Value::Number(set_true(m)));
                push(&mut out, "environment.current.setMagnetic", Value::Number(set_magnetic(m)));
                if (Real { bits: IMPACT_MIN_SPEED }).less_than(stw) {
                    push(
                        &mut out,
                        "environment.current.driftImpact",
                        Value::Number(drift(m).over(num(stw))),
                    );
                }
                Some(out)
            },
            _ => None,
        }
    }
}

/// Derives the speed through the water against or with the true wind.
#[derive(Debug, Clone, Copy)]
pub struct VmgStw;

impl VmgStw {
    pub fn name(&self) -> (r: &'static str)
        ensures
            r@ == "vmgStw"@,
    {
        "vmgStw"
    }

    /// The paths that the result depends on.
    pub open spec fn input_paths() -> Seq<Seq<char>> {
        seq![
            "environment.wind.angleTrueWater"@,
            "navigation.speedThroughWater"@,
        ]
    }

    /// The paths that the result depends on.
    pub fn inputs(&self) -> (r: Vec<&'static str>)
        ensures
            path_views(r@) == VmgStw::input_paths(),
    {
        let mut out: Vec<&'static str> = Vec::new();
        out.push("environment.wind.angleTrueWater");
        out.push("navigation.speedThroughWater");
        assert(path_views(out@) =~= VmgStw::input_paths());
        out
    }

    pub open spec fn derived(values: Seq<ReadingView>) -> Option<Seq<Entry>> {
        match (
            number_of(values, "environment.wind.angleTrueWater"@),
            number_of(values, "navigation.speedThroughWater"@),
        ) {
            (Some(angle), Some(stw)) => {
                let s = Seq::<Entry>::empty();
                let s = with(
                    s,
                    "performance.velocityMadeGoodWater"@,
                    ValueView::Number(num(stw).times(num(angle).cos())),
                );
                Some(s)
            },
            _ => None,
        }
    }

    pub fn calculate(&self, values: &Values) -> (r: Option<Vec<PathValue>>)
        ensures
            opt_entries(r) == VmgStw::derived(values@),
    {
        match (
            values.number("environment.wind.angleTrueWater"),
            values.number("navigation.speedThroughWater"),
        ) {
            (Some(angle), Some(stw)) => {
                let mut out = no_values();
                push(
                    &mut out,
                    "performance.velocityMadeGoodWater",
                    Value::Number(num(stw).times(num(angle).cos())),
                );
                Some(out)
            },
            _ => None,
        }
    }
}

/// The wind over ground along the heading.
#[verifier::allow_in_spec]
pub fn wind_ahead(aws: Real, awa: Real, sog: Real) -> (r: Expr)
    returns
        num(aws).times(num(awa).cos()).minus(num(sog)),
{
    num(aws).times(num(awa).cos()).minus(num(sog))
}

/// The wind across the heading.
#[verifier::allow_in_spec]
pub fn wind_abeam(aws: Real, awa: Real) -> (r: Expr)
    returns
        num(aws).times(num(awa).sin()),
{
    num(aws).times(num(awa).sin())
}

/// Derives angle and speed of the wind over ground.
#[derive(Debug, Clone, Copy)]
pub struct WindGround;

impl WindGround {
    pub fn name(&self) -> (r: &'static str)
        ensures
            r@ == "windGround"@,
    {
        "windGround"
    }

    /// The paths that the result depends on.
    pub open spec fn input_paths() -> Seq<Seq<char>> {
        seq![
            "environment.wind.speedApparent"@,
            "environment.wind.angleApparent"@,
            "navigation.speedOverGround"@,
        ]
    }

    /// The paths that the result depends on.
    pub fn inputs(&self) -> (r: Vec<&'static str>)
        ensures
            path_views(r@) == WindGround::input_paths(),
    {
        let mut out: Vec<&'static str> = Vec::new();
        out.push("environment.wind.speedApparent");
        out.push("environment.wind.angleApparent");
        out.push("navigation.speedOverGround");
        assert(path_views(out@) =~= WindGround::input_paths());
        out
    }

    pub open spec fn derived(values: Seq<ReadingView>) -> Option<Seq<Entry>> {
        match (
            number_of(values, "environment.wind.speedApparent"@),
            number_of(values, "environment.wind.angleApparent"@),
            number_of(values, "navigation.speedOverGround"@),
        ) {
            (Some(aws), Some(awa), Some(sog)) => {
                let s = Seq::<Entry>::empty();
                let s = with(
                    s,
                    "environment.wind.angleTrueGround"@,
                    ValueView::Number(wind_abeam(aws, awa).atan2(wind_ahead(aws, awa, sog))),
                );
                let s = with(
                    s,
                    "environment.wind.speedOverGround"@,
                    ValueView::Number(
                        wind_ahead(aws, awa, sog).times(wind_ahead(aws, awa, sog)).plus(
                            wind_abeam(aws, awa).times(wind_abeam(aws, awa)),
                        ).sqrt(),
                    ),
                );
                Some(s)
            },
            _ => None,
        }
    }

    pub fn calculate(&self, values: &Values) -> (r: Option<Vec<PathValue>>)
        ensures
            opt_entries(r) == WindGround::derived(values@),
    {
        match (
            values.number("environment.wind.speedApparent"),
            values.number("environment.wind.angleApparent"),
            values.number("navigation.speedOverGround"),
        ) {
            (Some(aws), Some(awa), Some(sog)) => {
                let mut out = no_values();
                push(
                    &mut out,
                    "environment.wind.angleTrueGround",
                    Value::Number(wind_abeam(aws, awa).atan2(wind_ahead(aws, awa, sog))),
                );
                push(
                    &mut out,
                    "environment.wind.speedOverGround",
                    Value::Number(
                        wind_ahead(aws, awa, sog).times(wind_ahead(aws, awa, sog)).plus(
                            wind_abeam(aws, awa).times(wind_abeam(aws, awa)),
                        ).sqrt(),
                    ),
                );
                Some(out)
            },
            _ => None,
        }
    }
}

/// Values that agree on the inputs of a calculator give the same result.
pub proof fn motion_rests_on_inputs(a: Seq<ReadingView>, b: Seq<ReadingView>)
    ensures
        agree(a, b, Leeway::input_paths()) ==> Leeway::derived(a) == Leeway::derived(b),
        agree(a, b, SetDrift::input_paths()) ==> SetDrift::derived(a) == SetDrift::derived(b),
        agree(a, b, VmgStw::input_paths()) ==> VmgStw::derived(a) == VmgStw::derived(b),
        agree(a, b, WindGround::input_paths()) ==> WindGround::derived(a) == WindGround::derived(b),
{
    if agree(a, b, Leeway::input_paths()) {
        let p = Leeway::input_paths();
        assert(p[0] == "navigation.attitude"@);
        assert(p[1] == "navigation.speedThroughWater"@);
    }
    if agree(a, b, SetDrift::input_paths()) {
        let p = SetDrift::input_paths();
        assert(p[0] == "navigation.headingMagnetic"@);
        assert(p[1] == "navigation.courseOverGroundTrue"@);
        assert(p[2] == "navigation.speedThroughWater"@);
        assert(p[3] == "navigation.speedOverGround"@);
        assert(p[4] == "navigation.magneticVariation"@);
    }
    if agree(a, b, VmgStw::input_paths()) {
        let p = VmgStw::input_paths();
        assert(p[0] == "environment.wind.angleTrueWater"@);
        assert(p[1] == "navigation.speedThroughWater"@);
    }
    if agree(a, b, WindGround::input_paths()) {
        let p = WindGround::input_paths();
        assert(p[0] == "environment.wind.speedApparent"@);
        assert(p[1] == "environment.wind.angleApparent"@);
        assert(p[2] == "navigation.speedOverGround"@);
    }
}

} // verus!
