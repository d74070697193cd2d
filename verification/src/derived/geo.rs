//! Distances and bearings on the globe.
use crate::cpa::EARTH_RADIUS_M;
use crate::expr::{lit, num, Expr};
use crate::number::Real;
use crate::units::{TAU, TWO};
use vstd::prelude::*;

verus! {

/// An angle in `[0, 2 pi)`.
#[verifier::allow_in_spec]
pub fn full_turn(a: Expr) -> (r: Expr)
    returns
        a.rem_euclid(lit(TAU)),
{
    a.rem_euclid(lit(TAU))
}

/// The square of the sine of half the angle between two coordinates in degrees.
#[verifier::allow_in_spec]
pub fn half_chord(from: Real, to: Real) -> (r: Expr)
    returns
        num(to).minus(num(from)).to_radians().over(lit(TWO)).sin().times(
            num(to).minus(num(from)).to_radians().over(lit(TWO)).sin(),
        ),
{
    num(to).minus(num(from)).to_radians().over(lit(TWO)).sin().times(
        num(to).minus(num(from)).to_radians().over(lit(TWO)).sin(),
    )
}

/// The haversine of the arc between two positions in decimal degrees.
#[verifier::allow_in_spec]
pub fn haversine(lat1: Real, lon1: Real, lat2: Real, lon2: Real) -> (r: Expr)
    returns
        half_chord(lat1, lat2).plus(
            num(lat1).to_radians().cos().times(num(lat2).to_radians().cos()).times(
                half_chord(lon1, lon2),
            ),
        ),
{
    half_chord(lat1, lat2).plus(
        num(lat1).to_radians().cos().times(num(lat2).to_radians().cos()).times(
            half_chord(lon1, lon2),
        ),
    )
}

/// The great-circle distance of two positions in decimal degrees, in metres.
#[verifier::allow_in_spec]
pub fn haversine_meters(lat1: Real, lon1: Real, lat2: Real, lon2: Real) -> (r: Expr)
    returns
        lit(EARTH_RADIUS_M).times(
            lit(TWO).times(haversine(lat1, lon1, lat2, lon2).sqrt().asin()),
        ),
{
    lit(EARTH_RADIUS_M).times(lit(TWO).times(haversine(lat1, lon1, lat2, lon2).sqrt().asin()))
}

/// The difference of two longitudes, in radians.
#[verifier::allow_in_spec]
pub fn longitude_step(lon1: Real, lon2: Real) -> (r: Expr)
    returns
        num(lon2).minus(num(lon1)).to_radians(),
{
    num(lon2).minus(num(lon1)).to_radians()
}

/// The initial bearing from one position to another, both in decimal degrees: radians
/// clockwise from north, in `[0, 2 pi)`.
#[verifier::allow_in_spec]
pub fn initial_bearing(lat1: Real, lon1: Real, lat2: Real, lon2: Real) -> (r: Expr)
    returns
        full_turn(
            longitude_step(lon1, lon2).sin().times(num(lat2).to_radians().cos()).atan2(
                num(lat1).to_radians().cos().times(num(lat2).to_radians().sin()).minus(
                    num(lat1).to_radians().sin().times(num(lat2).to_radians().cos()).times(
                        longitude_step(lon1, lon2).cos(),
                    ),
                ),
            ),
        ),
{
    full_turn(
        longitude_step(lon1, lon2).sin().times(num(lat2).to_radians().cos()).atan2(
            num(lat1).to_radians().cos().times(num(lat2).to_radians().sin()).minus(
                num(lat1).to_radians().sin().times(num(lat2).to_radians().cos()).times(
                    longitude_step(lon1, lon2).cos(),
                ),
            ),
        ),
    )
}

} // verus!
