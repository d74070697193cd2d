//! Closest point of approach (CPA) and the time until it (TCPA).
//!
//! Positions are projected equirectangularly around the mean latitude, which is
//! accurate to about one per cent up to 50 nautical miles:
//!
//! ```text
//! P = target position - own position      (metres)
//! V = target velocity - own velocity      (metres per second)
//!
//! TCPA = -(P . V) / |V|^2
//! CPA  = |P + V * TCPA|
//! ```
//!
//! A negative TCPA lies in the past. Vessels with the same velocity keep their
//! distance: CPA is the present distance and TCPA is infinite.
use crate::expr::{lit, num, Expr};
use crate::number::Real;
use crate::units::TWO;
use vstd::prelude::*;

verus! {

/// Mean radius of the earth in metres: 6371000.
pub const EARTH_RADIUS_M: u64 = 0x4158_4DAE_0000_0000;

/// Relative speeds whose square is below this count as none: 1e-6.
pub const SAME_VELOCITY: u64 = 0x3EB0_C6F7_A0B5_ED8D;

/// Positive infinity.
pub const INFINITY: u64 = 0x7FF0_0000_0000_0000;

/// The largest double that is not infinite.
pub const LARGEST: u64 = 0x7FEF_FFFF_FFFF_FFFF;

/// Position and motion of a vessel.
#[derive(Debug, Clone, Copy, PartialEq, Eq, Structural)]
pub struct Motion {
    /// Decimal degrees.
    pub lat: Real,
    /// Decimal degrees.
    pub lon: Real,
    /// Speed over ground, in metres per second.
    pub sog_ms: Real,
    /// Course over ground, in radians clockwise from north.
    pub cog_rad: Real,
}

impl Motion {
    pub open spec fn finite(self) -> bool {
        self.lat.finite() && self.lon.finite() && self.sog_ms.finite() && self.cog_rad.finite()
    }

    pub fn is_finite(&self) -> (r: bool)
        ensures
            r == self.finite(),
    {
        self.lat.is_finite() && self.lon.is_finite() && self.sog_ms.is_finite()
            && self.cog_rad.is_finite()
    }
}

/// The formulas of an approach.
#[derive(Debug, PartialEq)]
pub struct CpaFormula {
    /// Distance at the closest point, in metres.
    pub cpa_m: Expr,
    /// Seconds until then.
    pub tcpa_s: Expr,
}

/// Eastward part of a velocity.
#[verifier::allow_in_spec]
pub fn east(m: Motion) -> (r: Expr)
    returns
        num(m.sog_ms).times(num(m.cog_rad).sin()),
{
    num(m.sog_ms).times(num(m.cog_rad).sin())
}

/// Northward part of a velocity.
#[verifier::allow_in_spec]
pub fn north(m: Motion) -> (r: Expr)
    returns
        num(m.sog_ms).times(num(m.cog_rad).cos()),
{
    num(m.sog_ms).times(num(m.cog_rad).cos())
}

/// Eastward distance from own position to the target, in metres.
#[verifier::allow_in_spec]
pub fn offset_east(own: Motion, target: Motion) -> (r: Expr)
    returns
        num(target.lon).minus(num(own.lon)).to_radians().times(
            num(own.lat).plus(num(target.lat)).over(lit(TWO)).to_radians().cos(),
        ).times(lit(EARTH_RADIUS_M)),
{
    num(target.lon).minus(num(own.lon)).to_radians().times(
        num(own.lat).plus(num(target.lat)).over(lit(TWO)).to_radians().cos(),
    ).times(lit(EARTH_RADIUS_M))
}

/// Northward distance from own position to the target, in metres.
#[verifier::allow_in_spec]
pub fn offset_north(own: Motion, target: Motion) -> (r: Expr)
    returns
        num(target.lat).minus(num(own.lat)).to_radians().times(lit(EARTH_RADIUS_M)),
{
    num(target.lat).minus(num(own.lat)).to_radians().times(lit(EARTH_RADIUS_M))
}

/// Eastward part of the target's velocity relative to the own one.
#[verifier::allow_in_spec]
pub fn relative_east(own: Motion, target: Motion) -> (r: Expr)
    returns
        east(target).minus(east(own)),
{
    east(target).minus(east(own))
}

/// Northward part of the target's velocity relative to the own one.
#[verifier::allow_in_spec]
pub fn relative_north(own: Motion, target: Motion) -> (r: Expr)
    returns
        north(target).minus(north(own)),
{
    north(target).minus(north(own))
}

/// Square of the relative speed.
#[verifier::allow_in_spec]
pub fn speed_squared(own: Motion, target: Motion) -> (r: Expr)
    returns
        relative_east(own, target).times(relative_east(own, target)).plus(
            relative_north(own, target).times(relative_north(own, target)),
        ),
{
    relative_east(own, target).times(relative_east(own, target)).plus(
        relative_north(own, target).times(relative_north(own, target)),
    )
}

/// Seconds until the closest approach; infinite at the same velocity.
#[verifier::allow_in_spec]
pub fn time_to_closest(own: Motion, target: Motion) -> (r: Expr)
    returns
        speed_squared(own, target).if_less(
            lit(SAME_VELOCITY),
            lit(INFINITY),
            offset_east(own, target).times(relative_east(own, target)).plus(
                offset_north(own, target).times(relative_north(own, target)),
            ).negated().over(speed_squared(own, target)),
        ),
{
    speed_squared(own, target).if_less(
        lit(SAME_VELOCITY),
        lit(INFINITY),
        offset_east(own, target).times(relative_east(own, target)).plus(
            offset_north(own, target).times(relative_north(own, target)),
        ).negated().over(speed_squared(own, target)),
    )
}

/// Length of the vector with the given parts, each of which is used twice.
#[verifier::allow_in_spec]
pub fn length(x1: Expr, x2: Expr, y1: Expr, y2: Expr) -> (r: Expr)
    returns
        x1.times(x2).plus(y1.times(y2)).sqrt(),
{
    x1.times(x2).plus(y1.times(y2)).sqrt()
}

/// Eastward distance to the target at the closest approach.
#[verifier::allow_in_spec]
pub fn closest_east(own: Motion, target: Motion) -> (r: Expr)
    returns
        offset_east(own, target).plus(
            relative_east(own, target).times(time_to_closest(own, target)),
        ),
{
    offset_east(own, target).plus(
        relative_east(own, target).times(time_to_closest(own, target)),
    )
}

/// Northward distance to the target at the closest approach.
#[verifier::allow_in_spec]
pub fn closest_north(own: Motion, target: Motion) -> (r: Expr)
    returns
        offset_north(own, target).plus(
            relative_north(own, target).times(time_to_closest(own, target)),
        ),
{
    offset_north(own, target).plus(
        relative_north(own, target).times(time_to_closest(own, target)),
    )
}

/// Distance at the closest approach: the present one where the time until then is
/// infinite.
#[verifier::allow_in_spec]
pub fn closest_distance(own: Motion, target: Motion) -> (r: Expr)
    returns
        lit(LARGEST).if_less(
            time_to_closest(own, target).absolute(),
            length(
                offset_east(own, target),
                offset_east(own, target),
                offset_north(own, target),
                offset_north(own, target),
            ),
            length(
                closest_east(own, target),
                closest_east(own, target),
                closest_north(own, target),
                closest_north(own, target),
            ),
        ),
{
    lit(LARGEST).if_less(
        time_to_closest(own, target).absolute(),
        length(
            offset_east(own, target),
            offset_east(own, target),
            offset_north(own, target),
            offset_north(own, target),
        ),
        length(
            closest_east(own, target),
            closest_east(own, target),
            closest_north(own, target),
            closest_north(own, target),
        ),
    )
}

/// The approach of a target, unless one of the numbers is not finite.
pub fn compute_cpa(own: Motion, target: Motion) -> (r: Option<CpaFormula>)
    ensures
        r == (if own.finite() && target.finite() {
            Some(
                CpaFormula {
                    cpa_m: closest_distance(own, target),
                    tcpa_s: time_to_closest(own, target),
                },
            )
        } else {
            None
        }),
{
    if !own.is_finite() || !target.is_finite() {
        return None;
    }
    Some(
        CpaFormula {
            cpa_m: closest_distance(own, target),
            tcpa_s: time_to_closest(own, target),
        },
    )
}

} // verus!
