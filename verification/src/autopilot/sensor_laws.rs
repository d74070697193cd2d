//! What holds of the values of filters, weights and limits.
use crate::autopilot::filter::{valid_alpha, CircularFilter, LowPassFilter};
use crate::autopilot::pd::{limited, quality};
use crate::evaluation::{exact, faithful, within};
use crate::expr::{lit, num, Expr};
use crate::number::Real;
use crate::units::{ONE, PI, TWO, ZERO};
use vstd::prelude::*;

verus! {

// ---------------------------------------------------------------------------
// Sensor quality
// ---------------------------------------------------------------------------

/// The weight of a sensor lies between 0 and 1, whatever its age and half-life.
pub proof fn weight_is_a_share(ev: spec_fn(Expr) -> Real, age_secs: Real, half_life_secs: Real)
    requires
        faithful(ev),
    ensures
        (Real { bits: ZERO }).le(ev(quality(age_secs, half_life_secs))),
        ev(quality(age_secs, half_life_secs)).le(Real { bits: ONE }),
{
    let zero = Real { bits: ZERO };
    assert(ev(Expr::Lit(zero)) == zero);
    assert(ev(Expr::Lit(Real { bits: ONE })) == Real { bits: ONE });
    assert(ev(Expr::Lit(age_secs)) == age_secs);
    assert(ev(Expr::Lit(half_life_secs)) == half_life_secs);
    let exponent = num(age_secs).negated().over(num(half_life_secs));
    if age_secs.finite() && half_life_secs.finite() && !half_life_secs.le(zero) {
        assert(ev(num(age_secs).negated()).finite());
        assert(!ev(exponent).nan());
        let power = lit(TWO).powf(exponent);
        assert(!ev(power).nan());
        assert(ev(lit(ZERO)).le(ev(lit(ONE))));
        assert(ev(power.clamped(lit(ZERO), lit(ONE))) == ev(quality(age_secs, half_life_secs))
            || age_secs.lt(zero));
    }
}

/// The weight of a sensor does not grow as its value ages, from any finite age on. This holds
/// up to rounding: in exact arithmetic.
pub proof fn weight_does_not_grow_with_age(
    ex: spec_fn(Expr) -> int,
    age_secs: Real,
    later_secs: Real,
    half_life_secs: Real,
)
    requires
        exact(ex),
        age_secs.finite(),
        age_secs.le(later_secs),
    ensures
        ex(quality(later_secs, half_life_secs)) <= ex(quality(age_secs, half_life_secs)),
{
    let zero = Real { bits: ZERO };
    let one = Real { bits: ONE };
    assert(ex(Expr::Lit(zero)) <= ex(Expr::Lit(one)));
    let early = num(age_secs).negated().over(num(half_life_secs));
    let late = num(later_secs).negated().over(num(half_life_secs));
    let early_power = lit(TWO).powf(early);
    let late_power = lit(TWO).powf(late);
    assert(0 <= ex(early_power.clamped(lit(ZERO), lit(ONE))) <= ex(lit(ONE)));
    assert(0 <= ex(late_power.clamped(lit(ZERO), lit(ONE))) <= ex(lit(ONE)));
    if later_secs.finite() && half_life_secs.finite() && zero.lt(half_life_secs) {
        assert(ex(Expr::Lit(age_secs)) <= ex(Expr::Lit(later_secs)));
        assert(!(ex(Expr::Lit(half_life_secs)) <= ex(Expr::Lit(zero))));
        assert(ex(num(later_secs).negated()) <= ex(num(age_secs).negated()));
        assert(ex(late) <= ex(early));
        assert(ex(late_power) <= ex(early_power));
    }
}

// ---------------------------------------------------------------------------
// Filters
// ---------------------------------------------------------------------------

/// The output of a low-pass filter lies between its last output and the sample; the first
/// sample, also after a reset, is passed on as it is. This holds up to rounding: in exact
/// arithmetic.
pub proof fn filter_stays_between(
    ex: spec_fn(Expr) -> int,
    filter: LowPassFilter,
    input: Expr,
)
    requires
        exact(ex),
        valid_alpha(filter.alpha),
    ensures
        match filter.value {
            Some(prev) => {
                ||| ex(num(prev)) <= ex(filter.next(input)) <= ex(input)
                ||| ex(input) <= ex(filter.next(input)) <= ex(num(prev))
            },
            None => filter.next(input) == input,
        },
{
    assert(ex(Expr::Lit(Real { bits: ZERO })) <= ex(Expr::Lit(filter.alpha)));
    assert(ex(Expr::Lit(filter.alpha)) <= ex(Expr::Lit(Real { bits: ONE })));
    if let Some(prev) = filter.value {
        let way = input.minus(num(prev));
        assert(0 <= ex(num(filter.alpha)) <= ex(lit(ONE)));
        let step = num(filter.alpha).times(way);
        assert(ex(num(prev).plus(step)) == ex(num(prev)) + ex(step));
    }
}

/// A new filter for angles.
pub open spec fn new_circular(alpha: Real) -> CircularFilter {
    CircularFilter {
        sin_filter: LowPassFilter { value: None, alpha },
        cos_filter: LowPassFilter { value: None, alpha },
    }
}

/// A new filter for angles after a series of samples.
pub open spec fn filtered(
    ev: spec_fn(Expr) -> Real,
    alpha: Real,
    samples: Seq<Real>,
) -> CircularFilter
    decreases samples.len(),
{
    if samples.len() == 0 {
        new_circular(alpha)
    } else {
        let before = filtered(ev, alpha, samples.drop_last());
        CircularFilter {
            sin_filter: LowPassFilter {
                value: Some(ev(before.next_sin(samples.last()))),
                ..before.sin_filter
            },
            cos_filter: LowPassFilter {
                value: Some(ev(before.next_cos(samples.last()))),
                ..before.cos_filter
            },
        }
    }
}

/// The last output of a filter lies within 2 of zero.
pub open spec fn moderate(filter: LowPassFilter) -> bool {
    match filter.value {
        Some(prev) => within(prev, Real { bits: TWO }),
        None => true,
    }
}

/// A sample within 1 of zero keeps a filter's output within 2 of zero.
proof fn sample_keeps_output_moderate(
    ev: spec_fn(Expr) -> Real,
    filter: LowPassFilter,
    input: Expr,
)
    requires
        faithful(ev),
        valid_alpha(filter.alpha),
        moderate(filter),
        within(ev(input), Real { bits: ONE }),
    ensures
        within(ev(filter.next(input)), Real { bits: TWO }),
{
    assert(ev(Expr::Lit(filter.alpha)) == filter.alpha);
    if let Some(prev) = filter.value {
        assert(ev(Expr::Lit(prev)) == prev);
        let way = num(prev).plus(num(filter.alpha).times(input.minus(num(prev))));
        assert(within(ev(way), Real { bits: TWO }));
    }
}

/// After any series of finite samples, the filtered sine and cosine lie within 2 of zero.
proof fn samples_keep_filter_moderate(
    ev: spec_fn(Expr) -> Real,
    alpha: Real,
    samples: Seq<Real>,
)
    requires
        faithful(ev),
        valid_alpha(alpha),
        forall|i: int| 0 <= i < samples.len() ==> (#[trigger] samples[i]).finite(),
    ensures
        moderate(filtered(ev, alpha, samples).sin_filter),
        moderate(filtered(ev, alpha, samples).cos_filter),
        filtered(ev, alpha, samples).sin_filter.alpha == alpha,
        filtered(ev, alpha, samples).cos_filter.alpha == alpha,
    decreases samples.len(),
{
    if samples.len() > 0 {
        let before = filtered(ev, alpha, samples.drop_last());
        let angle = samples.last();
        samples_keep_filter_moderate(ev, alpha, samples.drop_last());
        assert(angle.finite());
        assert(ev(Expr::Lit(angle)) == angle);
        sample_keeps_output_moderate(ev, before.sin_filter, num(angle).sin());
        sample_keeps_output_moderate(ev, before.cos_filter, num(angle).cos());
    }
}

/// After any series of finite samples, the angle that a circular filter gives for one more
/// lies within half a turn of zero. A reset begins a new series.
pub proof fn filtered_angle_is_in_range(
    ev: spec_fn(Expr) -> Real,
    alpha: Real,
    samples: Seq<Real>,
    angle: Real,
)
    requires
        faithful(ev),
        valid_alpha(alpha),
        forall|i: int| 0 <= i < samples.len() ==> (#[trigger] samples[i]).finite(),
        angle.finite(),
    ensures
        within(ev(filtered(ev, alpha, samples).next(angle)), Real { bits: PI }),
        filtered(ev, alpha, samples).cleared() == new_circular(alpha),
{
    let filter = filtered(ev, alpha, samples);
    samples_keep_filter_moderate(ev, alpha, samples);
    assert(ev(Expr::Lit(angle)) == angle);
    sample_keeps_output_moderate(ev, filter.sin_filter, num(angle).sin());
    sample_keeps_output_moderate(ev, filter.cos_filter, num(angle).cos());
    assert(!ev(filter.next_sin(angle)).nan() && !ev(filter.next_cos(angle)).nan());
}

// ---------------------------------------------------------------------------
// Limits
// ---------------------------------------------------------------------------

/// A rudder that moves at a limited rate stops between where it was and where it is to go.
/// This holds up to rounding: in exact arithmetic.
pub proof fn limited_rudder_stays_between(
    ex: spec_fn(Expr) -> int,
    current: Real,
    target: Expr,
    max_rate_rad_per_sec: Real,
    dt: Real,
)
    requires
        exact(ex),
        max_rate_rad_per_sec.finite(),
    ensures
        ({
            let r = ex(limited(current, target, max_rate_rad_per_sec, dt));
            ||| ex(num(current)) <= r <= ex(target)
            ||| ex(target) <= r <= ex(num(current))
        }),
{
    let zero = Real { bits: ZERO };
    if zero.lt(max_rate_rad_per_sec) && dt.finite() && zero.lt(dt) {
        assert(ex(Expr::Lit(zero)) <= ex(Expr::Lit(max_rate_rad_per_sec)));
        assert(ex(Expr::Lit(zero)) <= ex(Expr::Lit(dt)));
        let reach = num(max_rate_rad_per_sec).times(num(dt));
        assert(ex(reach) >= 0);
        assert(ex(reach.negated()) == -ex(reach));
        let step = target.minus(num(current)).clamped(reach.negated(), reach);
        assert(ex(num(current).plus(step)) == ex(num(current)) + ex(step));
    }
}

} // verus!
