//! Low-pass filters for sensor smoothing.
//!
//! A filter hands out the formula of its next output with `update`; `settle`
//! stores the value that the formula has.
use crate::expr::{lit, num, Expr};
use crate::number::Real;
use crate::units::{ONE, ZERO};
use vstd::prelude::*;

verus! {

/// A smoothing factor: above 0 and at most 1.
pub open spec fn valid_alpha(alpha: Real) -> bool {
    (Real { bits: ZERO }).lt(alpha) && alpha.le(Real { bits: ONE })
}

/// First-order low-pass filter (exponential moving average), for signals that do
/// not wrap around.
#[derive(Debug, Clone, Copy, PartialEq, Eq, Structural)]
pub struct LowPassFilter {
    pub value: Option<Real>,
    pub alpha: Real,
}

impl LowPassFilter {
    #[verifier::allow_in_spec]
    pub fn new(alpha: Real) -> (r: Self)
        requires
            valid_alpha(alpha),
        returns
            (LowPassFilter { value: None, alpha }),
    {
        LowPassFilter { value: None, alpha }
    }

    /// The output for one more sample: `y + alpha * (x - y)`. The first sample is
    /// passed on as it is.
    pub open spec fn next(self, input: Expr) -> Expr {
        match self.value {
            Some(prev) => num(prev).plus(num(self.alpha).times(input.minus(num(prev)))),
            None => input,
        }
    }

    /// The formula of the output for one more sample.
    pub fn update(&self, input: Expr) -> (r: Expr)
        ensures
            r == self.next(input),
    {
        match self.value {
            Some(prev) => num(prev).plus(num(self.alpha).times(input.minus(num(prev)))),
            None => input,
        }
    }

    /// Stores the output.
    pub fn settle(&mut self, output: Real)
        ensures
            *final(self) == (LowPassFilter { value: Some(output), ..*old(self) }),
    {
        self.value = Some(output);
    }

    /// Forgets all samples.
    pub fn reset(&mut self)
        ensures
            *final(self) == (LowPassFilter { value: None, ..*old(self) }),
    {
        self.value = None;
    }

    /// The last output.
    pub fn get(&self) -> (r: Option<Real>)
        ensures
            r == self.value,
    {
        self.value
    }
}

/// Low-pass filter for angles: sine and cosine are filtered apart, so the output
/// does not jump at half a turn.
#[derive(Debug, Clone, Copy, PartialEq, Eq, Structural)]
pub struct CircularFilter {
    pub sin_filter: LowPassFilter,
    pub cos_filter: LowPassFilter,
}

impl CircularFilter {
    pub fn new(alpha: Real) -> (r: Self)
        requires
            valid_alpha(alpha),
        ensures
            r == (CircularFilter {
                sin_filter: LowPassFilter { value: None, alpha },
                cos_filter: LowPassFilter { value: None, alpha },
            }),
    {
        CircularFilter {
            sin_filter: LowPassFilter::new(alpha),
            cos_filter: LowPassFilter::new(alpha),
        }
    }

    /// The next filtered sine.
    pub open spec fn next_sin(self, angle: Real) -> Expr {
        self.sin_filter.next(num(angle).sin())
    }

    /// The next filtered cosine.
    pub open spec fn next_cos(self, angle: Real) -> Expr {
        self.cos_filter.next(num(angle).cos())
    }

    /// The next filtered angle.
    pub open spec fn next(self, angle: Real) -> Expr {
        self.next_sin(angle).atan2(self.next_cos(angle))
    }

    /// The formula of the filtered angle after one more sample.
    pub fn update(&self, angle: Real) -> (r: Expr)
        ensures
            r == self.next(angle),
    {
        let (s, c) = self.components(angle);
        s.atan2(c)
    }

    /// The formulas of the filtered sine and cosine after one more sample.
    pub fn components(&self, angle: Real) -> (r: (Expr, Expr))
        ensures
            r == (self.next_sin(angle), self.next_cos(angle)),
    {
        (self.sin_filter.update(num(angle).sin()), self.cos_filter.update(num(angle).cos()))
    }

    /// Stores the filtered sine and cosine.
    pub fn settle(&mut self, sin: Real, cos: Real)
        ensures
            final(self).sin_filter == (LowPassFilter { value: Some(sin), ..old(self).sin_filter }),
            final(self).cos_filter == (LowPassFilter { value: Some(cos), ..old(self).cos_filter }),
    {
        self.sin_filter.settle(sin);
        self.cos_filter.settle(cos);
    }

    /// Forgets all samples.
    pub fn reset(&mut self)
        ensures
            *final(self) == old(self).cleared(),
    {
        self.sin_filter.reset();
        self.cos_filter.reset();
    }

    /// The filter without any samples.
    pub open spec fn cleared(self) -> CircularFilter {
        CircularFilter {
            sin_filter: LowPassFilter { value: None, ..self.sin_filter },
            cos_filter: LowPassFilter { value: None, ..self.cos_filter },
        }
    }

    /// The formula of the last filtered angle.
    pub fn get(&self) -> (r: Option<Expr>)
        ensures
            r == (match (self.sin_filter.value, self.cos_filter.value) {
                (Some(s), Some(c)) => Some(num(s).atan2(num(c))),
                _ => None,
            }),
    {
        match (self.sin_filter.get(), self.cos_filter.get()) {
            (Some(s), Some(c)) => Some(num(s).atan2(num(c))),
            _ => None,
        }
    }
}

/// Rate of change of a signal, smoothed. Used to detect gusts.
#[derive(Debug, Clone, Copy, PartialEq, Eq, Structural)]
pub struct RateDetector {
    pub prev_value: Option<Real>,
    pub output_filter: LowPassFilter,
}

impl RateDetector {
    pub fn new(smoothing_alpha: Real) -> (r: Self)
        requires
            valid_alpha(smoothing_alpha),
        ensures
            r == (RateDetector {
                prev_value: None,
                output_filter: LowPassFilter { value: None, alpha: smoothing_alpha },
            }),
    {
        RateDetector { prev_value: None, output_filter: LowPassFilter::new(smoothing_alpha) }
    }

    /// The rate of change to a new sample; zero for the first one and where no time
    /// has passed.
    pub open spec fn rate(self, value: Real, dt: Real) -> Expr {
        match self.prev_value {
            Some(prev) => if (Real { bits: ZERO }).lt(dt) {
                num(value).minus(num(prev)).over(num(dt))
            } else {
                lit(ZERO)
            },
            None => lit(ZERO),
        }
    }

    /// The smoothed rate of change to a new sample.
    pub open spec fn next(self, value: Real, dt: Real) -> Expr {
        self.output_filter.next(self.rate(value, dt))
    }

    /// The formula of the smoothed rate of change to a new sample.
    pub fn update(&self, value: Real, dt: Real) -> (r: Expr)
        ensures
            r == self.next(value, dt),
    {
        let zero = Real { bits: ZERO };
        let rate = match self.prev_value {
            Some(prev) => if zero.less_than(dt) {
                num(value).minus(num(prev)).over(num(dt))
            } else {
                lit(ZERO)
            },
            None => lit(ZERO),
        };
        self.output_filter.update(rate)
    }

    /// Stores a sample and the smoothed rate of change to it.
    pub fn settle(&mut self, value: Real, rate: Real)
        ensures
            *final(self) == old(self).settled(value, rate),
    {
        self.prev_value = Some(value);
        self.output_filter.settle(rate);
    }

    /// The detector after a sample and the smoothed rate of change to it.
    pub open spec fn settled(self, value: Real, rate: Real) -> RateDetector {
        RateDetector {
            prev_value: Some(value),
            output_filter: LowPassFilter { value: Some(rate), ..self.output_filter },
        }
    }

    /// Forgets all samples.
    pub fn reset(&mut self)
        ensures
            *final(self) == old(self).cleared(),
    {
        self.prev_value = None;
        self.output_filter.reset();
    }

    /// The detector without any samples.
    pub open spec fn cleared(self) -> RateDetector {
        RateDetector {
            prev_value: None,
            output_filter: LowPassFilter { value: None, ..self.output_filter },
        }
    }
}

} // verus!
