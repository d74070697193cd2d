//! Control laws of the steering modes.
//!
//! Every mode turns its sensor into a signed error and the error's rate of
//! change; the PID controller turns these into a rudder command. A measured yaw
//! rate is preferred to the finite difference of the error: it has no lag and
//! does not suffer from the quantisation of the compass.
use crate::autopilot::filter::CircularFilter;
use crate::autopilot::pd::normalize_angle;
use crate::expr::{lit, num, Expr};
use crate::number::Real;
use crate::units::ONE;
use vstd::prelude::*;

verus! {

/// Formulas of an error and its rate of change.
#[derive(Debug, PartialEq)]
pub struct ErrorFormulas {
    pub error: Expr,
    pub d_error: Expr,
}

/// The rate of change of an error: the yaw rate with the opposite sign, or the
/// finite difference to the previous error.
pub open spec fn error_rate(
    error: Expr,
    prev_error: Real,
    dt: Real,
    yaw_rate: Option<Real>,
) -> Expr {
    match yaw_rate {
        Some(rate) => num(rate).negated(),
        None => normalize_angle(error.minus(num(prev_error))).over(num(dt)),
    }
}

fn rate_formula(error: Expr, prev_error: Real, dt: Real, yaw_rate: Option<Real>) -> (r: Expr)
    ensures
        r == error_rate(error, prev_error, dt, yaw_rate),
{
    match yaw_rate {
        Some(rate) => num(rate).negated(),
        None => normalize_angle(error.minus(num(prev_error))).over(num(dt)),
    }
}

/// The error of a heading.
#[verifier::allow_in_spec]
pub fn angle_error(target: Expr, current: Expr) -> (r: Expr)
    returns
        normalize_angle(target.minus(current)),
{
    normalize_angle(target.minus(current))
}

/// What heading hold steers by.
pub open spec fn heading_view(
    current_heading: Real,
    effective_target: Real,
    prev_error: Real,
    dt: Real,
    yaw_rate: Option<Real>,
) -> ErrorFormulas {
    let error = angle_error(num(effective_target), num(current_heading));
    ErrorFormulas { error, d_error: error_rate(error, prev_error, dt, yaw_rate) }
}

/// Heading hold.
pub fn heading(
    current_heading: Real,
    effective_target: Real,
    prev_error: Real,
    dt: Real,
    yaw_rate: Option<Real>,
) -> (r: ErrorFormulas)
    ensures
        r == heading_view(current_heading, effective_target, prev_error, dt, yaw_rate),
{
    ErrorFormulas {
        error: angle_error(num(effective_target), num(current_heading)),
        d_error: rate_formula(
            angle_error(num(effective_target), num(current_heading)),
            prev_error,
            dt,
            yaw_rate,
        ),
    }
}

/// What wind hold steers by: the filtered wind angle.
pub open spec fn wind_view(
    filter: CircularFilter,
    raw_angle: Real,
    effective_target: Real,
    prev_error: Real,
    dt: Real,
    yaw_rate: Option<Real>,
) -> ErrorFormulas {
    let error = angle_error(num(effective_target), filter.next(raw_angle));
    ErrorFormulas { error, d_error: error_rate(error, prev_error, dt, yaw_rate) }
}

/// Wind hold, of the apparent or the true wind angle.
pub fn wind(
    filter: &CircularFilter,
    raw_angle: Real,
    effective_target: Real,
    prev_error: Real,
    dt: Real,
    yaw_rate: Option<Real>,
) -> (r: ErrorFormulas)
    ensures
        r == wind_view(*filter, raw_angle, effective_target, prev_error, dt, yaw_rate),
{
    ErrorFormulas {
        error: angle_error(num(effective_target), filter.update(raw_angle)),
        d_error: rate_formula(
            angle_error(num(effective_target), filter.update(raw_angle)),
            prev_error,
            dt,
            yaw_rate,
        ),
    }
}

/// What route following steers by.
#[derive(Debug, Clone, Copy, PartialEq, Eq, Structural)]
pub struct RouteInput {
    pub current_heading: Real,
    /// Bearing to the waypoint.
    pub btw: Real,
    /// Cross-track error in metres, positive to starboard of the track.
    pub xte_m: Real,
    /// Distance ahead on the track that is steered for, in metres.
    pub lookahead_m: Real,
    pub prev_error: Real,
    pub dt: Real,
    pub yaw_rate: Option<Real>,
}

/// The heading to steer: the bearing to the waypoint, corrected by the angle under
/// which the cross-track error appears from the lookahead distance, which is never
/// taken as less than a metre.
#[verifier::allow_in_spec]
pub fn desired_heading(input: RouteInput) -> (r: Expr)
    returns
        normalize_angle(
            num(input.btw).plus(
                num(input.xte_m).over(num(input.lookahead_m).max(lit(ONE))).atan(),
            ),
        ),
{
    normalize_angle(
        num(input.btw).plus(
            num(input.xte_m).over(num(input.lookahead_m).max(lit(ONE))).atan(),
        ),
    )
}

/// What route following steers by: the error of the desired heading.
pub open spec fn route_view(input: RouteInput) -> ErrorFormulas {
    let error = angle_error(desired_heading(input), num(input.current_heading));
    ErrorFormulas {
        error,
        d_error: error_rate(error, input.prev_error, input.dt, input.yaw_rate),
    }
}

/// Route following.
pub fn route(input: RouteInput) -> (r: ErrorFormulas)
    ensures
        r == route_view(input),
{
    ErrorFormulas {
        error: angle_error(desired_heading(input), num(input.current_heading)),
        d_error: rate_formula(
            angle_error(desired_heading(input), num(input.current_heading)),
            input.prev_error,
            input.dt,
            input.yaw_rate,
        ),
    }
}

} // verus!
