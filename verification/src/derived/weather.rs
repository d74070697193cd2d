//! Derived weather: air density and heat index.
use crate::derived::{
    agree, number_of, opt_entries, path_views, Values,
};
use crate::expr::{lit, num, Expr};
use crate::incoming::ReadingView;
use crate::number::Real;
use crate::signalk::{no_values, push, with, Entry, PathValue, Value, ValueView};
use crate::units::{HUNDRED, KELVIN_OFFSET, ONE, ZERO};
use vstd::prelude::*;

verus! {

/// Specific gas constant of dry air, in J/(kg K): 287.058.
pub const DRY_AIR: u64 = 0x4071_F0ED_9168_72B0;

/// Specific gas constant of water vapour, in J/(kg K): 461.495.
pub const VAPOUR: u64 = 0x407C_D7EB_851E_B852;

/// Factor of the Buck equation: 611.21.
pub const BUCK_A: u64 = 0x4083_19AE_147A_E148;

/// Coefficient of the Buck equation: 18.678.
pub const BUCK_B: u64 = 0x4032_AD91_6872_B021;

/// Coefficient of the Buck equation: 234.5.
pub const BUCK_C: u64 = 0x406D_5000_0000_0000;

/// Coefficient of the Buck equation: 257.14.
pub const BUCK_D: u64 = 0x4070_123D_70A3_D70A;

/// A coefficient of the heat index: 9.0.
pub const NINE: u64 = 0x4022_0000_0000_0000;

/// A coefficient of the heat index: 5.0.
pub const FIVE: u64 = 0x4014_0000_0000_0000;

/// A coefficient of the heat index: 4.0.
pub const FOUR: u64 = 0x4010_0000_0000_0000;

/// A coefficient of the heat index: 10.0.
pub const TEN: u64 = 0x4024_0000_0000_0000;

/// A coefficient of the heat index: 0.5.
pub const HALF: u64 = 0x3FE0_0000_0000_0000;

/// A coefficient of the heat index: 32.0.
pub const F_FREEZING: u64 = 0x4040_0000_0000_0000;

/// A coefficient of the heat index: 61.0.
pub const STEADMAN_OFFSET: u64 = 0x404E_8000_0000_0000;

/// A coefficient of the heat index: 68.0.
pub const STEADMAN_BASE: u64 = 0x4051_0000_0000_0000;

/// A coefficient of the heat index: 1.2.
pub const STEADMAN_SLOPE: u64 = 0x3FF3_3333_3333_3333;

/// A coefficient of the heat index: 0.094.
pub const STEADMAN_HUMIDITY: u64 = 0x3FB8_1062_4DD2_F1AA;

/// A coefficient of the heat index: 80.0.
pub const HOT_F: u64 = 0x4054_0000_0000_0000;

/// A coefficient of the heat index: 87.0.
pub const MOIST_TOP_F: u64 = 0x4055_C000_0000_0000;

/// A coefficient of the heat index: 112.0.
pub const DRY_TOP_F: u64 = 0x405C_0000_0000_0000;

/// A coefficient of the heat index: 13.0.
pub const DRY_PERCENT: u64 = 0x402A_0000_0000_0000;

/// A coefficient of the heat index: 17.0.
pub const DRY_SPREAD: u64 = 0x4031_0000_0000_0000;

/// A coefficient of the heat index: 95.0.
pub const DRY_CENTRE_F: u64 = 0x4057_C000_0000_0000;

/// A coefficient of the heat index: 85.0.
pub const MOIST_PERCENT: u64 = 0x4055_4000_0000_0000;

/// Humidity in per cent from which the regression is valid: 40.
pub const HUMID_PERCENT: u64 = 0x4044_0000_0000_0000;

/// A coefficient of the Rothfusz regression: -42.379.
pub const ROTHFUSZ_0: u64 = 0xC045_3083_126E_978D;

/// A coefficient of the Rothfusz regression: 2.04901523.
pub const ROTHFUSZ_1: u64 = 0x4000_6462_18CE_D8EC;

/// A coefficient of the Rothfusz regression: 10.14333127.
pub const ROTHFUSZ_2: u64 = 0x4024_4962_B75A_49CD;

/// A coefficient of the Rothfusz regression: 0.22475541.
pub const ROTHFUSZ_3: u64 = 0x3FCC_C4C9_07C6_47F8;

/// A coefficient of the Rothfusz regression: 0.00683783.
pub const ROTHFUSZ_4: u64 = 0x3F7C_01FC_039C_16CC;

/// A coefficient of the Rothfusz regression: 0.05481717.
pub const ROTHFUSZ_5: u64 = 0x3FAC_10FF_00D1_8C24;

/// A coefficient of the Rothfusz regression: 0.00122874.
pub const ROTHFUSZ_6: u64 = 0x3F54_21B5_8760_DCE5;

/// A coefficient of the Rothfusz regression: 0.00085282.
pub const ROTHFUSZ_7: u64 = 0x3F4B_F1F9_0133_30DA;

/// A coefficient of the Rothfusz regression: 1.99e-06.
pub const ROTHFUSZ_8: u64 = 0x3EC0_B17E_11D3_BD01;

/// Saturation vapour pressure after Buck, in pascal.
#[verifier::allow_in_spec]
pub fn saturation_pressure(temperature_k: Real) -> (r: Expr)
    returns
        lit(BUCK_A).times(
            lit(BUCK_B).minus(celsius(temperature_k).over(lit(BUCK_C))).times(
                celsius(temperature_k),
            ).over(
                lit(BUCK_D).plus(celsius(temperature_k)),
            ).exp(),
        ),
{
    lit(BUCK_A).times(
        lit(BUCK_B).minus(celsius(temperature_k).over(lit(BUCK_C))).times(celsius(temperature_k)).over(
            lit(BUCK_D).plus(celsius(temperature_k)),
        ).exp(),
    )
}

/// Degrees Celsius of a temperature in kelvin.
#[verifier::allow_in_spec]
pub fn celsius(temperature_k: Real) -> (r: Expr)
    returns
        num(temperature_k).minus(lit(KELVIN_OFFSET)),
{
    num(temperature_k).minus(lit(KELVIN_OFFSET))
}

/// Density of dry air.
#[verifier::allow_in_spec]
pub fn dry_density(temperature_k: Real, pressure_pa: Real) -> (r: Expr)
    returns
        num(pressure_pa).over(lit(DRY_AIR).times(num(temperature_k))),
{
    num(pressure_pa).over(lit(DRY_AIR).times(num(temperature_k)))
}

/// Partial pressure of the water vapour.
#[verifier::allow_in_spec]
pub fn vapour_pressure(temperature_k: Real, humidity: Real) -> (r: Expr)
    returns
        num(humidity).times(saturation_pressure(temperature_k)),
{
    num(humidity).times(saturation_pressure(temperature_k))
}

/// Density of moist air.
#[verifier::allow_in_spec]
pub fn moist_density(temperature_k: Real, pressure_pa: Real, humidity: Real) -> (r: Expr)
    returns
        num(pressure_pa).minus(vapour_pressure(temperature_k, humidity)).over(
            lit(DRY_AIR).times(num(temperature_k)),
        ).plus(
            vapour_pressure(temperature_k, humidity).over(lit(VAPOUR).times(num(temperature_k))),
        ),
{
    num(pressure_pa).minus(vapour_pressure(temperature_k, humidity)).over(
        lit(DRY_AIR).times(num(temperature_k)),
    ).plus(
        vapour_pressure(temperature_k, humidity).over(lit(VAPOUR).times(num(temperature_k))),
    )
}

/// Derives the density of the outside air from temperature, pressure and humidity.
/// Without a usable humidity the air counts as dry.
#[derive(Debug, Clone, Copy)]
pub struct AirDensity;

impl AirDensity {
    pub fn name(&self) -> (r: &'static str)
        ensures
            r@ == "airDensity"@,
    {
        "airDensity"
    }

    /// The paths that the result depends on.
    pub open spec fn input_paths() -> Seq<Seq<char>> {
        seq![
            "environment.outside.temperature"@,
            "environment.outside.pressure"@,
            "environment.outside.humidity"@,
        ]
    }

    /// The paths that the result depends on.
    pub fn inputs(&self) -> (r: Vec<&'static str>)
        ensures
            path_views(r@) == AirDensity::input_paths(),
    {
        let mut out: Vec<&'static str> = Vec::new();
        out.push("environment.outside.temperature");
        out.push("environment.outside.pressure");
        out.push("environment.outside.humidity");
        assert(path_views(out@) =~= AirDensity::input_paths());
        out
    }

    /// The humidity can be used: above 0, up to 1.
    pub open spec fn usable(humidity: Real) -> bool {
        (Real { bits: ZERO }).lt(humidity) && humidity.le(Real { bits: ONE })
    }

    pub open spec fn derived(values: Seq<ReadingView>) -> Option<Seq<Entry>> {
        match (
            number_of(values, "environment.outside.temperature"@),
            number_of(values, "environment.outside.pressure"@),
        ) {
            (Some(t), Some(p)) => {
                if t.le(Real { bits: ZERO }) || p.le(Real { bits: ZERO }) {
                    None
                } else {
                    let density = match number_of(values, "environment.outside.humidity"@) {
                        Some(h) => if AirDensity::usable(h) {
                            moist_density(t, p, h)
                        } else {
                            dry_density(t, p)
                        },
                        None => dry_density(t, p),
                    };
                    Some(
                        with(
                            Seq::empty(),
                            "environment.outside.airDensity"@,
                            ValueView::Number(density),
                        ),
                    )
                }
            },
            _ => None,
        }
    }

    pub fn calculate(&self, values: &Values) -> (r: Option<Vec<PathValue>>)
        ensures
            opt_entries(r) == AirDensity::derived(values@),
    {
        let (t, p) = match (
            values.number("environment.outside.temperature"),
            values.number("environment.outside.pressure"),
        ) {
            (Some(t), Some(p)) => (t, p),
            _ => {
                return None;
            },
        };
        let zero = Real { bits: ZERO };
        if t.at_most(zero) || p.at_most(zero) {
            return None;
        }
        let density = match values.number("environment.outside.humidity") {
            Some(h) => if zero.less_than(h) && h.at_most(Real { bits: ONE }) {
                moist_density(t, p, h)
            } else {
                dry_density(t, p)
            },
            None => dry_density(t, p),
        };
        let mut out = no_values();
        push(&mut out, "environment.outside.airDensity", Value::Number(density));
        Some(out)
    }
}

/// Degrees Fahrenheit of a temperature in kelvin.
#[verifier::allow_in_spec]
pub fn fahrenheit(temperature_k: Real) -> (r: Expr)
    returns
        celsius(temperature_k).times(lit(NINE)).over(lit(FIVE)).plus(lit(F_FREEZING)),
{
    celsius(temperature_k).times(lit(NINE)).over(lit(FIVE)).plus(lit(F_FREEZING))
}

/// Relative humidity in per cent.
#[verifier::allow_in_spec]
pub fn percent(humidity: Real) -> (r: Expr)
    returns
        num(humidity).times(lit(HUNDRED)),
{
    num(humidity).times(lit(HUNDRED))
}

/// The heat index after Steadman, in degrees Fahrenheit.
#[verifier::allow_in_spec]
pub fn steadman(t: Real, h: Real) -> (r: Expr)
    returns
        lit(HALF).times(
            fahrenheit(t).plus(lit(STEADMAN_OFFSET)).plus(
                fahrenheit(t).minus(lit(STEADMAN_BASE)).times(lit(STEADMAN_SLOPE)),
            ).plus(
                percent(h).times(lit(STEADMAN_HUMIDITY)),
            ),
        ),
{
    lit(HALF).times(
        fahrenheit(t).plus(lit(STEADMAN_OFFSET)).plus(
            fahrenheit(t).minus(lit(STEADMAN_BASE)).times(lit(STEADMAN_SLOPE)),
        ).plus(
            percent(h).times(lit(STEADMAN_HUMIDITY)),
        ),
    )
}

/// The heat index after Rothfusz, in degrees Fahrenheit.
#[verifier::allow_in_spec]
pub fn rothfusz(t: Real, h: Real) -> (r: Expr)
    returns
        lit(ROTHFUSZ_0).plus(lit(ROTHFUSZ_1).times(fahrenheit(t))).plus(
            lit(ROTHFUSZ_2).times(percent(h)),
        ).minus(
            lit(ROTHFUSZ_3).times(fahrenheit(t)).times(percent(h)),
        ).minus(
            lit(ROTHFUSZ_4).times(fahrenheit(t)).times(fahrenheit(t)),
        ).minus(
            lit(ROTHFUSZ_5).times(percent(h)).times(percent(h)),
        ).plus(
            lit(ROTHFUSZ_6).times(fahrenheit(t)).times(fahrenheit(t)).times(percent(h)),
        ).plus(
            lit(ROTHFUSZ_7).times(fahrenheit(t)).times(percent(h)).times(percent(h)),
        ).minus(
            lit(ROTHFUSZ_8).times(fahrenheit(t)).times(fahrenheit(t)).times(percent(h)).times(
                percent(h),
            ),
        ),
{
    lit(ROTHFUSZ_0).plus(lit(ROTHFUSZ_1).times(fahrenheit(t))).plus(
        lit(ROTHFUSZ_2).times(percent(h)),
    ).minus(
        lit(ROTHFUSZ_3).times(fahrenheit(t)).times(percent(h)),
    ).minus(
        lit(ROTHFUSZ_4).times(fahrenheit(t)).times(fahrenheit(t)),
    ).minus(
        lit(ROTHFUSZ_5).times(percent(h)).times(percent(h)),
    ).plus(
        lit(ROTHFUSZ_6).times(fahrenheit(t)).times(fahrenheit(t)).times(percent(h)),
    ).plus(
        lit(ROTHFUSZ_7).times(fahrenheit(t)).times(percent(h)).times(percent(h)),
    ).minus(
        lit(ROTHFUSZ_8).times(fahrenheit(t)).times(fahrenheit(t)).times(percent(h)).times(
            percent(h),
        ),
    )
}

/// The Rothfusz index, lowered in dry air between 80 and 112 degrees.
#[verifier::allow_in_spec]
pub fn dry_adjusted(t: Real, h: Real) -> (r: Expr)
    returns
        percent(h).if_less(
            lit(DRY_PERCENT),
            fahrenheit(t).if_less(
                lit(HOT_F),
                rothfusz(t, h),
                lit(DRY_TOP_F).if_less(
                    fahrenheit(t),
                    rothfusz(t, h),
                    rothfusz(t, h).minus(
                        lit(DRY_PERCENT).minus(percent(h)).over(lit(FOUR)).times(
                            lit(DRY_SPREAD).minus(
                                fahrenheit(t).minus(lit(DRY_CENTRE_F)).absolute(),
                            ).over(
                                lit(DRY_SPREAD),
                            ).sqrt(),
                        ),
                    ),
                ),
            ),
            rothfusz(t, h),
        ),
{
    percent(h).if_less(
        lit(DRY_PERCENT),
        fahrenheit(t).if_less(
            lit(HOT_F),
            rothfusz(t, h),
            lit(DRY_TOP_F).if_less(
                fahrenheit(t),
                rothfusz(t, h),
                rothfusz(t, h).minus(
                    lit(DRY_PERCENT).minus(percent(h)).over(lit(FOUR)).times(
                        lit(DRY_SPREAD).minus(
                            fahrenheit(t).minus(lit(DRY_CENTRE_F)).absolute(),
                        ).over(
                            lit(DRY_SPREAD),
                        ).sqrt(),
                    ),
                ),
            ),
        ),
        rothfusz(t, h),
    )
}

/// The index, raised in very moist air between 80 and 87 degrees.
#[verifier::allow_in_spec]
pub fn moist_adjusted(t: Real, h: Real) -> (r: Expr)
    returns
        lit(MOIST_PERCENT).if_less(
            percent(h),
            fahrenheit(t).if_less(
                lit(HOT_F),
                dry_adjusted(t, h),
                lit(MOIST_TOP_F).if_less(
                    fahrenheit(t),
                    dry_adjusted(t, h),
                    dry_adjusted(t, h).plus(
                        percent(h).minus(lit(MOIST_PERCENT)).over(lit(TEN)).times(
                            lit(MOIST_TOP_F).minus(fahrenheit(t)).over(lit(FIVE)),
                        ),
                    ),
                ),
            ),
            dry_adjusted(t, h),
        ),
{
    lit(MOIST_PERCENT).if_less(
        percent(h),
        fahrenheit(t).if_less(
            lit(HOT_F),
            dry_adjusted(t, h),
            lit(MOIST_TOP_F).if_less(
                fahrenheit(t),
                dry_adjusted(t, h),
                dry_adjusted(t, h).plus(
                    percent(h).minus(lit(MOIST_PERCENT)).over(lit(TEN)).times(
                        lit(MOIST_TOP_F).minus(fahrenheit(t)).over(lit(FIVE)),
                    ),
                ),
            ),
        ),
        dry_adjusted(t, h),
    )
}

/// The heat index in kelvin: the regression from 80 degrees Fahrenheit and 40 per cent of
/// humidity on, the simple formula below.
#[verifier::allow_in_spec]
pub fn heat_index(t: Real, h: Real) -> (r: Expr)
    returns
        fahrenheit(t).if_less(
            lit(HOT_F),
            steadman(t, h),
            percent(h).if_less(lit(HUMID_PERCENT), steadman(t, h), moist_adjusted(t, h)),
        ).minus(
            lit(F_FREEZING),
        ).times(
            lit(FIVE),
        ).over(
            lit(NINE),
        ).plus(
            lit(KELVIN_OFFSET),
        ),
{
    fahrenheit(t).if_less(
        lit(HOT_F),
        steadman(t, h),
        percent(h).if_less(lit(HUMID_PERCENT), steadman(t, h), moist_adjusted(t, h)),
    ).minus(
        lit(F_FREEZING),
    ).times(
        lit(FIVE),
    ).over(
        lit(NINE),
    ).plus(
        lit(KELVIN_OFFSET),
    )
}

/// Derives the heat index from temperature and humidity.
#[derive(Debug, Clone, Copy)]
pub struct HeatIndex;

impl HeatIndex {
    pub fn name(&self) -> (r: &'static str)
        ensures
            r@ == "heatIndex"@,
    {
        "heatIndex"
    }

    /// The paths that the result depends on.
    pub open spec fn input_paths() -> Seq<Seq<char>> {
        seq![
            "environment.outside.temperature"@,
            "environment.outside.humidity"@,
        ]
    }

    /// The paths that the result depends on.
    pub fn inputs(&self) -> (r: Vec<&'static str>)
        ensures
            path_views(r@) == HeatIndex::input_paths(),
    {
        let mut out: Vec<&'static str> = Vec::new();
        out.push("environment.outside.temperature");
        out.push("environment.outside.humidity");
        assert(path_views(out@) =~= HeatIndex::input_paths());
        out
    }

    pub open spec fn derived(values: Seq<ReadingView>) -> Option<Seq<Entry>> {
        match (
            number_of(values, "environment.outside.temperature"@),
            number_of(values, "environment.outside.humidity"@),
        ) {
            (Some(t), Some(h)) => {
                if !t.finite() || !h.finite() || t.le(Real { bits: ZERO })
                    || !((Real { bits: ZERO }).le(h) && h.le(Real { bits: ONE })) {
                    None
                } else {
                    let s = Seq::<Entry>::empty();
                    let s = with(
                        s,
                        "environment.outside.heatIndexTemperature"@,
                        ValueView::Number(heat_index(t, h)),
                    );
                    Some(s)
                }
            },
            _ => None,
        }
    }

    pub fn calculate(&self, values: &Values) -> (r: Option<Vec<PathValue>>)
        ensures
            opt_entries(r) == HeatIndex::derived(values@),
    {
        match (
            values.number("environment.outside.temperature"),
            values.number("environment.outside.humidity"),
        ) {
            (Some(t), Some(h)) => {
                if !t.is_finite() || !h.is_finite() || t.at_most(Real { bits: ZERO })
                    || !((Real { bits: ZERO }).at_most(h) && h.at_most(Real { bits: ONE })) {
                    return None;
                }
                let mut out = no_values();
                push(
                    &mut out,
                    "environment.outside.heatIndexTemperature",
                    Value::Number(heat_index(t, h)),
                );
                Some(out)
            },
            _ => None,
        }
    }
}

/// Values that agree on the inputs of a calculator give the same result.
pub proof fn weather_rests_on_inputs(a: Seq<ReadingView>, b: Seq<ReadingView>)
    ensures
        agree(a, b, AirDensity::input_paths()) ==> AirDensity::derived(a) == AirDensity::derived(b),
        agree(a, b, HeatIndex::input_paths()) ==> HeatIndex::derived(a) == HeatIndex::derived(b),
{
    if agree(a, b, AirDensity::input_paths()) {
        let p = AirDensity::input_paths();
        assert(p[0] == "environment.outside.temperature"@);
        assert(p[1] == "environment.outside.pressure"@);
        assert(p[2] == "environment.outside.humidity"@);
    }
    if agree(a, b, HeatIndex::input_paths()) {
        let p = HeatIndex::input_paths();
        assert(p[0] == "environment.outside.temperature"@);
        assert(p[1] == "environment.outside.humidity"@);
    }
}

} // verus!
