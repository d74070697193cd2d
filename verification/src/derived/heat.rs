//! What the heat index means.
use crate::derived::meaning::{gives, single_entry_shows};
use crate::derived::number_of;
use crate::derived::weather::{
    celsius, dry_adjusted, fahrenheit, heat_index, moist_adjusted, percent, rothfusz, steadman,
    HeatIndex, DRY_CENTRE_F, DRY_PERCENT, DRY_SPREAD, DRY_TOP_F, FIVE, FOUR, F_FREEZING, HALF,
    HOT_F, HUMID_PERCENT, MOIST_PERCENT, MOIST_TOP_F, NINE, ROTHFUSZ_0, ROTHFUSZ_1, ROTHFUSZ_2,
    ROTHFUSZ_3, ROTHFUSZ_4, ROTHFUSZ_5, ROTHFUSZ_6, ROTHFUSZ_7, ROTHFUSZ_8, STEADMAN_BASE,
    STEADMAN_HUMIDITY, STEADMAN_OFFSET, STEADMAN_SLOPE, TEN,
};
use crate::expr::{lit, num, Expr};
use crate::ideal::ideal;
use crate::incoming::ReadingView;
use crate::number::Real;
use crate::units::{HUNDRED, KELVIN_OFFSET, ONE, ZERO};
use vstd::prelude::*;

verus! {

/// The round numbers of the formulas have their values.
pub open spec fn round_numbers(ev: spec_fn(Expr) -> real) -> bool {
    &&& ev(lit(NINE)) == 9real
    &&& ev(lit(FIVE)) == 5real
    &&& ev(lit(FOUR)) == 4real
    &&& ev(lit(TEN)) == 10real
    &&& 2real * ev(lit(HALF)) == 1real
    &&& ev(lit(HUNDRED)) == 100real
    &&& ev(lit(F_FREEZING)) == 32real
    &&& ev(lit(STEADMAN_OFFSET)) == 61real
    &&& ev(lit(STEADMAN_BASE)) == 68real
    &&& ev(lit(HOT_F)) == 80real
    &&& ev(lit(HUMID_PERCENT)) == 40real
    &&& ev(lit(MOIST_PERCENT)) == 85real
    &&& ev(lit(MOIST_TOP_F)) == 87real
    &&& ev(lit(DRY_PERCENT)) == 13real
    &&& ev(lit(DRY_SPREAD)) == 17real
    &&& ev(lit(DRY_CENTRE_F)) == 95real
    &&& ev(lit(DRY_TOP_F)) == 112real
}

/// A temperature in kelvin, in degrees Fahrenheit.
pub open spec fn in_fahrenheit(ev: spec_fn(Expr) -> real, t: Real) -> real {
    (ev(num(t)) - ev(lit(KELVIN_OFFSET))) * 9real / 5real + 32real
}

/// A relative humidity, in per cent.
pub open spec fn in_percent(ev: spec_fn(Expr) -> real, h: Real) -> real {
    ev(num(h)) * 100real
}

/// The regression over degrees Fahrenheit and per cent.
pub open spec fn regression(ev: spec_fn(Expr) -> real, f: real, p: real) -> real {
    ev(lit(ROTHFUSZ_0)) + ev(lit(ROTHFUSZ_1)) * f + ev(lit(ROTHFUSZ_2)) * p - ev(lit(ROTHFUSZ_3))
        * f * p - ev(lit(ROTHFUSZ_4)) * f * f - ev(lit(ROTHFUSZ_5)) * p * p + ev(lit(ROTHFUSZ_6))
        * f * f * p + ev(lit(ROTHFUSZ_7)) * f * p * p - ev(lit(ROTHFUSZ_8)) * f * f * p * p
}

/// How far a temperature is from 95 degrees.
pub open spec fn off_centre(f: real) -> real {
    if f < 95real {
        95real - f
    } else {
        f - 95real
    }
}

/// The root of a number.
pub open spec fn is_root(root: real, x: real) -> bool {
    root >= 0real && root * root == x
}

/// The formulas work in degrees Fahrenheit and per cent.
pub proof fn units_of_the_formulas(ev: spec_fn(Expr) -> real, t: Real, h: Real)
    requires
        ideal(ev),
        round_numbers(ev),
    ensures
        ev(fahrenheit(t)) == in_fahrenheit(ev, t),
        ev(percent(h)) == in_percent(ev, h),
{
    let c = celsius(t);
    assert(ev(c) == ev(num(t)) - ev(lit(KELVIN_OFFSET)));
    assert(ev(c.times(lit(NINE))) == ev(c) * 9real);
    assert(ev(c.times(lit(NINE)).over(lit(FIVE))) == ev(c) * 9real / 5real);
}

/// The simple formula: the mean of the temperature and of a line over temperature and humidity.
pub proof fn simple_index_is_a_mean(ev: spec_fn(Expr) -> real, t: Real, h: Real)
    requires
        ideal(ev),
        round_numbers(ev),
    ensures
        ({
            let f = in_fahrenheit(ev, t);
            let p = in_percent(ev, h);
            ev(steadman(t, h)) * 2real == f + (61real + (f - 68real) * ev(lit(STEADMAN_SLOPE)) + p
                * ev(lit(STEADMAN_HUMIDITY)))
        }),
{
    units_of_the_formulas(ev, t, h);
    let f = in_fahrenheit(ev, t);
    let p = in_percent(ev, h);
    let x = f + (61real + (f - 68real) * ev(lit(STEADMAN_SLOPE)) + p * ev(lit(STEADMAN_HUMIDITY)));
    let half = ev(lit(HALF));
    assert(half == 1real / 2real);
    let sum = fahrenheit(t).plus(lit(STEADMAN_OFFSET)).plus(
        fahrenheit(t).minus(lit(STEADMAN_BASE)).times(lit(STEADMAN_SLOPE)),
    ).plus(percent(h).times(lit(STEADMAN_HUMIDITY)));
    assert(ev(sum) == x);
    assert(ev(steadman(t, h)) == half * x);
}

/// The regression is taken at the temperature in degrees Fahrenheit and the humidity in per cent.
pub proof fn regression_is_taken(ev: spec_fn(Expr) -> real, t: Real, h: Real)
    requires
        ideal(ev),
        round_numbers(ev),
    ensures
        ev(rothfusz(t, h)) == regression(ev, in_fahrenheit(ev, t), in_percent(ev, h)),
{
    units_of_the_formulas(ev, t, h);
}

/// In air drier than 13 per cent, from 80 to 112 degrees, the index is lowered; by a quarter of
/// the missing per cent at 95 degrees, and by less and less away from there. Other air leaves it
/// as it is.
pub proof fn dry_air_lowers_the_index(ev: spec_fn(Expr) -> real, t: Real, h: Real)
    requires
        ideal(ev),
        round_numbers(ev),
    ensures
        ({
            let f = in_fahrenheit(ev, t);
            let p = in_percent(ev, h);
            &&& p < 13real && 80real <= f && f <= 112real ==> exists|root: real| #[trigger]
                is_root(root, (17real - off_centre(f)) / 17real) && ev(dry_adjusted(t, h)) == ev(
                    rothfusz(t, h),
                ) - (13real - p) / 4real * root
            &&& !(p < 13real && 80real <= f && f <= 112real) ==> ev(dry_adjusted(t, h)) == ev(
                rothfusz(t, h),
            )
        }),
{
    units_of_the_formulas(ev, t, h);
    let f = in_fahrenheit(ev, t);
    let p = in_percent(ev, h);
    let off = off_centre(f);
    let gap = fahrenheit(t).minus(lit(DRY_CENTRE_F)).absolute();
    assert(ev(gap) == off);
    let share = lit(DRY_SPREAD).minus(gap).over(lit(DRY_SPREAD));
    assert(ev(share) == (17real - off) / 17real);
    let missing = lit(DRY_PERCENT).minus(percent(h)).over(lit(FOUR));
    assert(ev(missing) == (13real - p) / 4real);
    if p < 13real && 80real <= f && f <= 112real {
        let root = ev(share.sqrt());
        assert(ev(share) >= 0real);
        assert(is_root(root, (17real - off) / 17real));
        assert(ev(missing.times(share.sqrt())) == (13real - p) / 4real * root);
        assert(ev(dry_adjusted(t, h)) == ev(rothfusz(t, h)) - (13real - p) / 4real * root);
    }
}

/// In air moister than 85 per cent, from 80 to 87 degrees, the index is raised; the more the
/// moister and the cooler the air is. Other air leaves it as it is.
pub proof fn moist_air_raises_the_index(ev: spec_fn(Expr) -> real, t: Real, h: Real)
    requires
        ideal(ev),
        round_numbers(ev),
    ensures
        ({
            let f = in_fahrenheit(ev, t);
            let p = in_percent(ev, h);
            ev(moist_adjusted(t, h)) == ev(dry_adjusted(t, h)) + if 85real < p && 80real <= f && f
                <= 87real {
                (p - 85real) / 10real * ((87real - f) / 5real)
            } else {
                0real
            }
        }),
{
    units_of_the_formulas(ev, t, h);
    let f = in_fahrenheit(ev, t);
    let p = in_percent(ev, h);
    let moist = percent(h).minus(lit(MOIST_PERCENT)).over(lit(TEN));
    assert(ev(moist) == (p - 85real) / 10real);
    let cool = lit(MOIST_TOP_F).minus(fahrenheit(t)).over(lit(FIVE));
    assert(ev(cool) == (87real - f) / 5real);
    assert(ev(moist.times(cool)) == (p - 85real) / 10real * ((87real - f) / 5real));
}

/// The heat index of a temperature above zero and a humidity from 0 to 1 is told in kelvin. Below
/// 80 degrees Fahrenheit or 40 per cent it is that of the simple formula, else the regression,
/// raised in moist air.
pub proof fn heat_index_is_told(
    ev: spec_fn(Expr) -> real,
    values: Seq<ReadingView>,
    t: Real,
    h: Real,
)
    requires
        ideal(ev),
        round_numbers(ev),
        number_of(values, "environment.outside.temperature"@) == Some(t),
        number_of(values, "environment.outside.humidity"@) == Some(h),
        t.finite(),
        h.finite(),
        (Real { bits: ZERO }).lt(t),
        (Real { bits: ZERO }).le(h),
        h.le(Real { bits: ONE }),
    ensures
        exists|e: Expr| #[trigger]
            gives(HeatIndex::derived(values), "environment.outside.heatIndexTemperature"@, e) && {
                let index = (ev(e) - ev(lit(KELVIN_OFFSET))) * 9real / 5real + 32real;
                if in_fahrenheit(ev, t) < 80real || in_percent(ev, h) < 40real {
                    index == ev(steadman(t, h))
                } else {
                    index == ev(moist_adjusted(t, h)) && ev(dry_adjusted(t, h)) == ev(
                        rothfusz(t, h),
                    )
                }
            },
{
    units_of_the_formulas(ev, t, h);
    dry_air_lowers_the_index(ev, t, h);
    let e = heat_index(t, h);
    single_entry_shows("environment.outside.heatIndexTemperature"@, e);
    let i = fahrenheit(t).if_less(
        lit(HOT_F),
        steadman(t, h),
        percent(h).if_less(lit(HUMID_PERCENT), steadman(t, h), moist_adjusted(t, h)),
    );
    let scaled = i.minus(lit(F_FREEZING)).times(lit(FIVE));
    assert(ev(scaled) == (ev(i) - 32real) * 5real);
    assert(ev(scaled.over(lit(NINE))) == (ev(i) - 32real) * 5real / 9real);
    assert(gives(
        HeatIndex::derived(values),
        "environment.outside.heatIndexTemperature"@,
        e,
    ));
}

/// There is no heat index without temperature and humidity, nor outside of their ranges.
pub proof fn no_heat_index_out_of_range(values: Seq<ReadingView>)
    requires
        HeatIndex::derived(values) is Some,
    ensures
        ({
            let t = number_of(values, "environment.outside.temperature"@);
            let h = number_of(values, "environment.outside.humidity"@);
            t is Some && h is Some && t->0.finite() && h->0.finite() && !t->0.le(
                Real { bits: ZERO },
            ) && (Real { bits: ZERO }).le(h->0) && h->0.le(Real { bits: ONE })
        }),
{
}

} // verus!
