//! Derived course data.
use crate::derived::geo::{full_turn, haversine_meters, initial_bearing};
use crate::derived::{
    agree, number_of, opt_entries, path_views, position_at, Values,
};
use crate::expr::{lit, num, Expr};
use crate::incoming::ReadingView;
use crate::number::Real;
use crate::signalk::{no_values, push, with, Entry, PathValue, Value, ValueView};
use crate::units::{PI, TAU, ZERO};
use vstd::prelude::*;

verus! {

/// Slowest progress that an arrival is estimated for, in m/s: 0.1.
pub const SLOWEST_VMG: u64 = 0x3FB9_9999_9999_999A;

/// Derives the magnetic bearing of the track from the true one.
#[derive(Debug, Clone, Copy)]
pub struct BearingMagnetic;

impl BearingMagnetic {
    pub fn name(&self) -> (r: &'static str)
        ensures
            r@ == "bearingMagnetic"@,
    {
        "bearingMagnetic"
    }

    /// The paths that the result depends on.
    pub open spec fn input_paths() -> Seq<Seq<char>> {
        seq![
            "navigation.course.calcValues.bearingTrackTrue"@,
            "navigation.magneticVariation"@,
        ]
    }

    /// The paths that the result depends on.
    pub fn inputs(&self) -> (r: Vec<&'static str>)
        ensures
            path_views(r@) == BearingMagnetic::input_paths(),
    {
        let mut out: Vec<&'static str> = Vec::new();
        out.push("navigation.course.calcValues.bearingTrackTrue");
        out.push("navigation.magneticVariation");
        assert(path_views(out@) =~= BearingMagnetic::input_paths());
        out
    }

    pub open spec fn derived(values: Seq<ReadingView>) -> Option<Seq<Entry>> {
        match (
            number_of(values, "navigation.course.calcValues.bearingTrackTrue"@),
            number_of(values, "navigation.magneticVariation"@),
        ) {
            (Some(bearing), Some(variation)) => {
                if !bearing.finite() || !variation.finite() {
                    None
                } else {
                    let s = Seq::<Entry>::empty();
                    let s = with(
                        s,
                        "navigation.course.calcValues.bearingTrackMagnetic"@,
                        ValueView::Number(full_turn(num(bearing).minus(num(variation)))),
                    );
                    Some(s)
                }
            },
            _ => None,
        }
    }

    pub fn calculate(&self, values: &Values) -> (r: Option<Vec<PathValue>>)
        ensures
            opt_entries(r) == BearingMagnetic::derived(values@),
    {
        match (
            values.number("navigation.course.calcValues.bearingTrackTrue"),
            values.number("navigation.magneticVariation"),
        ) {
            (Some(bearing), Some(variation)) => {
                if !bearing.is_finite() || !variation.is_finite() {
                    return None;
                }
                let mut out = no_values();
                push(
                    &mut out,
                    "navigation.course.calcValues.bearingTrackMagnetic",
                    Value::Number(full_turn(num(bearing).minus(num(variation)))),
                );
                Some(out)
            },
            _ => None,
        }
    }
}

/// Derives the true bearing of the next point.
#[derive(Debug, Clone, Copy)]
pub struct CourseBearing;

impl CourseBearing {
    pub fn name(&self) -> (r: &'static str)
        ensures
            r@ == "courseBearing"@,
    {
        "courseBearing"
    }

    /// The paths that the result depends on.
    pub open spec fn input_paths() -> Seq<Seq<char>> {
        seq![
            "navigation.position"@,
            "navigation.course.nextPoint.position"@,
        ]
    }

    /// The paths that the result depends on.
    pub fn inputs(&self) -> (r: Vec<&'static str>)
        ensures
            path_views(r@) == CourseBearing::input_paths(),
    {
        let mut out: Vec<&'static str> = Vec::new();
        out.push("navigation.position");
        out.push("navigation.course.nextPoint.position");
        assert(path_views(out@) =~= CourseBearing::input_paths());
        out
    }

    pub open spec fn derived(values: Seq<ReadingView>) -> Option<Seq<Entry>> {
        match (
            position_at(values, "navigation.position"@),
            position_at(values, "navigation.course.nextPoint.position"@),
        ) {
            (Some(here), Some(there)) => {
                let s = Seq::<Entry>::empty();
                let s = with(
                    s,
                    "navigation.course.calcValues.bearingTrackTrue"@,
                    ValueView::Number(initial_bearing(here.0, here.1, there.0, there.1)),
                );
                Some(s)
            },
            _ => None,
        }
    }

    pub fn calculate(&self, values: &Values) -> (r: Option<Vec<PathValue>>)
        ensures
            opt_entries(r) == CourseBearing::derived(values@),
    {
        match (
            values.position("navigation.position"),
            values.position("navigation.course.nextPoint.position"),
        ) {
            (Some(here), Some(there)) => {
                let mut out = no_values();
                push(
                    &mut out,
                    "navigation.course.calcValues.bearingTrackTrue",
                    Value::Number(initial_bearing(here.0, here.1, there.0, there.1)),
                );
                Some(out)
            },
            _ => None,
        }
    }
}

/// Derives the distance to the next point.
#[derive(Debug, Clone, Copy)]
pub struct CourseDistance;

impl CourseDistance {
    pub fn name(&self) -> (r: &'static str)
        ensures
            r@ == "courseDistance"@,
    {
        "courseDistance"
    }

    /// The paths that the result depends on.
    pub open spec fn input_paths() -> Seq<Seq<char>> {
        seq![
            "navigation.position"@,
            "navigation.courseGreatCircle.nextPoint.position"@,
        ]
    }

    /// The paths that the result depends on.
    pub fn inputs(&self) -> (r: Vec<&'static str>)
        ensures
            path_views(r@) == CourseDistance::input_paths(),
    {
        let mut out: Vec<&'static str> = Vec::new();
        out.push("navigation.position");
        out.push("navigation.courseGreatCircle.nextPoint.position");
        assert(path_views(out@) =~= CourseDistance::input_paths());
        out
    }

    pub open spec fn derived(values: Seq<ReadingView>) -> Option<Seq<Entry>> {
        match (
            position_at(values, "navigation.position"@),
            position_at(values, "navigation.courseGreatCircle.nextPoint.position"@),
        ) {
            (Some(here), Some(there)) => {
                let s = Seq::<Entry>::empty();
                let s = with(
                    s,
                    "navigation.courseGreatCircle.nextPoint.distance"@,
                    ValueView::Number(haversine_meters(here.0, here.1, there.0, there.1)),
                );
                Some(s)
            },
            _ => None,
        }
    }

    pub fn calculate(&self, values: &Values) -> (r: Option<Vec<PathValue>>)
        ensures
            opt_entries(r) == CourseDistance::derived(values@),
    {
        match (
            values.position("navigation.position"),
            values.position("navigation.courseGreatCircle.nextPoint.position"),
        ) {
            (Some(here), Some(there)) => {
                let mut out = no_values();
                push(
                    &mut out,
                    "navigation.courseGreatCircle.nextPoint.distance",
                    Value::Number(haversine_meters(here.0, here.1, there.0, there.1)),
                );
                Some(out)
            },
            _ => None,
        }
    }
}

/// Derives the distance to the previous point.
#[derive(Debug, Clone, Copy)]
pub struct PreviousPointDistance;

impl PreviousPointDistance {
    pub fn name(&self) -> (r: &'static str)
        ensures
            r@ == "previousPointDistance"@,
    {
        "previousPointDistance"
    }

    /// The paths that the result depends on.
    pub open spec fn input_paths() -> Seq<Seq<char>> {
        seq![
            "navigation.position"@,
            "navigation.course.previousPoint.position"@,
        ]
    }

    /// The paths that the result depends on.
    pub fn inputs(&self) -> (r: Vec<&'static str>)
        ensures
            path_views(r@) == PreviousPointDistance::input_paths(),
    {
        let mut out: Vec<&'static str> = Vec::new();
        out.push("navigation.position");
        out.push("navigation.course.previousPoint.position");
        assert(path_views(out@) =~= PreviousPointDistance::input_paths());
        out
    }

    pub open spec fn derived(values: Seq<ReadingView>) -> Option<Seq<Entry>> {
        match (
            position_at(values, "navigation.position"@),
            position_at(values, "navigation.course.previousPoint.position"@),
        ) {
            (Some(here), Some(there)) => {
                let s = Seq::<Entry>::empty();
                let s = with(
                    s,
                    "navigation.course.calcValues.previousPoint.distance"@,
                    ValueView::Number(haversine_meters(here.0, here.1, there.0, there.1)),
                );
                Some(s)
            },
            _ => None,
        }
    }

    pub fn calculate(&self, values: &Values) -> (r: Option<Vec<PathValue>>)
        ensures
            opt_entries(r) == PreviousPointDistance::derived(values@),
    {
        match (
            values.position("navigation.position"),
            values.position("navigation.course.previousPoint.position"),
        ) {
            (Some(here), Some(there)) => {
                let mut out = no_values();
                push(
                    &mut out,
                    "navigation.course.calcValues.previousPoint.distance",
                    Value::Number(haversine_meters(here.0, here.1, there.0, there.1)),
                );
                Some(out)
            },
            _ => None,
        }
    }
}

/// Derives the magnetic course over ground from the true one.
#[derive(Debug, Clone, Copy)]
pub struct CourseOverGroundMagnetic;

impl CourseOverGroundMagnetic {
    pub fn name(&self) -> (r: &'static str)
        ensures
            r@ == "courseOverGroundMagnetic"@,
    {
        "courseOverGroundMagnetic"
    }

    /// The paths that the result depends on.
    pub open spec fn input_paths() -> Seq<Seq<char>> {
        seq![
            "navigation.courseOverGroundTrue"@,
            "navigation.magneticVariation"@,
        ]
    }

    /// The paths that the result depends on.
    pub fn inputs(&self) -> (r: Vec<&'static str>)
        ensures
            path_views(r@) == CourseOverGroundMagnetic::input_paths(),
    {
        let mut out: Vec<&'static str> = Vec::new();
        out.push("navigation.courseOverGroundTrue");
        out.push("navigation.magneticVariation");
        assert(path_views(out@) =~= CourseOverGroundMagnetic::input_paths());
        out
    }

    pub open spec fn derived(values: Seq<ReadingView>) -> Option<Seq<Entry>> {
        match (
            number_of(values, "navigation.courseOverGroundTrue"@),
            number_of(values, "navigation.magneticVariation"@),
        ) {
            (Some(cog), Some(variation)) => {
                let s = Seq::<Entry>::empty();
                let s = with(
                    s,
                    "navigation.courseOverGroundMagnetic"@,
                    ValueView::Number(full_turn(num(cog).minus(num(variation)))),
                );
                Some(s)
            },
            _ => None,
        }
    }

    pub fn calculate(&self, values: &Values) -> (r: Option<Vec<PathValue>>)
        ensures
            opt_entries(r) == CourseOverGroundMagnetic::derived(values@),
    {
        match (
            values.number("navigation.courseOverGroundTrue"),
            values.number("navigation.magneticVariation"),
        ) {
            (Some(cog), Some(variation)) => {
                let mut out = no_values();
                push(
                    &mut out,
                    "navigation.courseOverGroundMagnetic",
                    Value::Number(full_turn(num(cog).minus(num(variation)))),
                );
                Some(out)
            },
            _ => None,
        }
    }
}

/// Derives the seconds until arrival, while there is progress.
#[derive(Debug, Clone, Copy)]
pub struct Eta;

impl Eta {
    pub fn name(&self) -> (r: &'static str)
        ensures
            r@ == "eta"@,
    {
        "eta"
    }

    /// The paths that the result depends on.
    pub open spec fn input_paths() -> Seq<Seq<char>> {
        seq![
            "navigation.courseGreatCircle.nextPoint.distance"@,
            "navigation.courseGreatCircle.nextPoint.velocityMadeGood"@,
        ]
    }

    /// The paths that the result depends on.
    pub fn inputs(&self) -> (r: Vec<&'static str>)
        ensures
            path_views(r@) == Eta::input_paths(),
    {
        let mut out: Vec<&'static str> = Vec::new();
        out.push("navigation.courseGreatCircle.nextPoint.distance");
        out.push("navigation.courseGreatCircle.nextPoint.velocityMadeGood");
        assert(path_views(out@) =~= Eta::input_paths());
        out
    }

    pub open spec fn derived(values: Seq<ReadingView>) -> Option<Seq<Entry>> {
        match (
            number_of(values, "navigation.courseGreatCircle.nextPoint.distance"@),
            number_of(values, "navigation.courseGreatCircle.nextPoint.velocityMadeGood"@),
        ) {
            (Some(distance), Some(vmg)) => {
                if vmg.le(Real { bits: SLOWEST_VMG }) || distance.lt(Real { bits: ZERO }) {
                    None
                } else {
                    let s = Seq::<Entry>::empty();
                    let s = with(
                        s,
                        "navigation.course.estimatedTimeOfArrival"@,
                        ValueView::Number(num(distance).over(num(vmg))),
                    );
                    Some(s)
                }
            },
            _ => None,
        }
    }

    pub fn calculate(&self, values: &Values) -> (r: Option<Vec<PathValue>>)
        ensures
            opt_entries(r) == Eta::derived(values@),
    {
        match (
            values.number("navigation.courseGreatCircle.nextPoint.distance"),
            values.number("navigation.courseGreatCircle.nextPoint.velocityMadeGood"),
        ) {
            (Some(distance), Some(vmg)) => {
                if vmg.at_most(Real { bits: SLOWEST_VMG })
                    || distance.less_than(Real { bits: ZERO }) {
                    return None;
                }
                let mut out = no_values();
                push(
                    &mut out,
                    "navigation.course.estimatedTimeOfArrival",
                    Value::Number(num(distance).over(num(vmg))),
                );
                Some(out)
            },
            _ => None,
        }
    }
}

/// The signed difference of course and bearing, brought back by one turn where it is more
/// than half a turn.
#[verifier::allow_in_spec]
pub fn steer_error(cog: Real, bearing: Real) -> (r: Expr)
    returns
        lit(PI).if_less(
            num(cog).minus(num(bearing)),
            num(cog).minus(num(bearing)).minus(lit(TAU)),
            num(cog).minus(num(bearing)).if_less(
                lit(PI).negated(),
                num(cog).minus(num(bearing)).plus(lit(TAU)),
                num(cog).minus(num(bearing)),
            ),
        ),
{
    lit(PI).if_less(
        num(cog).minus(num(bearing)),
        num(cog).minus(num(bearing)).minus(lit(TAU)),
        num(cog).minus(num(bearing)).if_less(
            lit(PI).negated(),
            num(cog).minus(num(bearing)).plus(lit(TAU)),
            num(cog).minus(num(bearing)),
        ),
    )
}

/// Derives the steering error: positive to starboard of the course line.
#[derive(Debug, Clone, Copy)]
pub struct SteerError;

impl SteerError {
    pub fn name(&self) -> (r: &'static str)
        ensures
            r@ == "steerError"@,
    {
        "steerError"
    }

    /// The paths that the result depends on.
    pub open spec fn input_paths() -> Seq<Seq<char>> {
        seq![
            "navigation.courseOverGroundTrue"@,
            "navigation.course.calcValues.bearingTrackTrue"@,
        ]
    }

    /// The paths that the result depends on.
    pub fn inputs(&self) -> (r: Vec<&'static str>)
        ensures
            path_views(r@) == SteerError::input_paths(),
    {
        let mut out: Vec<&'static str> = Vec::new();
        out.push("navigation.courseOverGroundTrue");
        out.push("navigation.course.calcValues.bearingTrackTrue");
        assert(path_views(out@) =~= SteerError::input_paths());
        out
    }

    pub open spec fn derived(values: Seq<ReadingView>) -> Option<Seq<Entry>> {
        match (
            number_of(values, "navigation.courseOverGroundTrue"@),
            number_of(values, "navigation.course.calcValues.bearingTrackTrue"@),
        ) {
            (Some(cog), Some(bearing)) => {
                let s = Seq::<Entry>::empty();
                let s = with(
                    s,
                    "navigation.course.steerError"@,
                    ValueView::Number(steer_error(cog, bearing)),
                );
                Some(s)
            },
            _ => None,
        }
    }

    pub fn calculate(&self, values: &Values) -> (r: Option<Vec<PathValue>>)
        ensures
            opt_entries(r) == SteerError::derived(values@),
    {
        match (
            values.number("navigation.courseOverGroundTrue"),
            values.number("navigation.course.calcValues.bearingTrackTrue"),
        ) {
            (Some(cog), Some(bearing)) => {
                let mut out = no_values();
                push(
                    &mut out,
                    "navigation.course.steerError",
                    Value::Number(steer_error(cog, bearing)),
                );
                Some(out)
            },
            _ => None,
        }
    }
}

/// Derives the speed towards the next point.
#[derive(Debug, Clone, Copy)]
pub struct VmgWaypoint;

impl VmgWaypoint {
    pub fn name(&self) -> (r: &'static str)
        ensures
            r@ == "vmgWaypoint"@,
    {
        "vmgWaypoint"
    }

    /// The paths that the result depends on.
    pub open spec fn input_paths() -> Seq<Seq<char>> {
        seq![
            "navigation.speedOverGround"@,
            "navigation.courseOverGroundTrue"@,
            "navigation.courseGreatCircle.bearingTrackTrue"@,
        ]
    }

    /// The paths that the result depends on.
    pub fn inputs(&self) -> (r: Vec<&'static str>)
        ensures
            path_views(r@) == VmgWaypoint::input_paths(),
    {
        let mut out: Vec<&'static str> = Vec::new();
        out.push("navigation.speedOverGround");
        out.push("navigation.courseOverGroundTrue");
        out.push("navigation.courseGreatCircle.bearingTrackTrue");
        assert(path_views(out@) =~= VmgWaypoint::input_paths());
        out
    }

    pub open spec fn derived(values: Seq<ReadingView>) -> Option<Seq<Entry>> {
        match (
            number_of(values, "navigation.speedOverGround"@),
            number_of(values, "navigation.courseOverGroundTrue"@),
            number_of(values, "navigation.courseGreatCircle.bearingTrackTrue"@),
        ) {
            (Some(sog), Some(cog), Some(bearing)) => {
                if !sog.finite() || !cog.finite() || !bearing.finite() {
                    None
                } else {
                    let s = Seq::<Entry>::empty();
                    let s = with(
                        s,
                        "navigation.courseGreatCircle.nextPoint.velocityMadeGood"@,
                        ValueView::Number(num(sog).times(num(cog).minus(num(bearing)).cos())),
                    );
                    Some(s)
                }
            },
            _ => None,
        }
    }

    pub fn calculate(&self, values: &Values) -> (r: Option<Vec<PathValue>>)
        ensures
            opt_entries(r) == VmgWaypoint::derived(values@),
    {
        match (
            values.number("navigation.speedOverGround"),
            values.number("navigation.courseOverGroundTrue"),
            values.number("navigation.courseGreatCircle.bearingTrackTrue"),
        ) {
            (Some(sog), Some(cog), Some(bearing)) => {
                if !sog.is_finite() || !cog.is_finite() || !bearing.is_finite() {
                    return None;
                }
                let mut out = no_values();
                push(
                    &mut out,
                    "navigation.courseGreatCircle.nextPoint.velocityMadeGood",
                    Value::Number(num(sog).times(num(cog).minus(num(bearing)).cos())),
                );
                Some(out)
            },
            _ => None,
        }
    }
}

/// Values that agree on the inputs of a calculator give the same result.
pub proof fn course_rests_on_inputs(a: Seq<ReadingView>, b: Seq<ReadingView>)
    ensures
        agree(a, b, BearingMagnetic::input_paths()) ==> BearingMagnetic::derived(a)
            == BearingMagnetic::derived(b),
        agree(a, b, CourseBearing::input_paths()) ==> CourseBearing::derived(a)
            == CourseBearing::derived(b),
        agree(a, b, CourseDistance::input_paths()) ==> CourseDistance::derived(a)
            == CourseDistance::derived(b),
        agree(a, b, PreviousPointDistance::input_paths()) ==> PreviousPointDistance::derived(a)
            == PreviousPointDistance::derived(b),
        agree(a, b, CourseOverGroundMagnetic::input_paths()) ==> CourseOverGroundMagnetic::derived(a)
            == CourseOverGroundMagnetic::derived(b),
        agree(a, b, Eta::input_paths()) ==> Eta::derived(a) == Eta::derived(b),
        agree(a, b, SteerError::input_paths()) ==> SteerError::derived(a) == SteerError::derived(b),
        agree(a, b, VmgWaypoint::input_paths()) ==> VmgWaypoint::derived(a)
            == VmgWaypoint::derived(b),
{
    if agree(a, b, BearingMagnetic::input_paths()) {
        let p = BearingMagnetic::input_paths();
        assert(p[0] == "navigation.course.calcValues.bearingTrackTrue"@);
        assert(p[1] == "navigation.magneticVariation"@);
    }
    if agree(a, b, CourseBearing::input_paths()) {
        let p = CourseBearing::input_paths();
        assert(p[0] == "navigation.position"@);
        assert(p[1] == "navigation.course.nextPoint.position"@);
    }
    if agree(a, b, CourseDistance::input_paths()) {
        let p = CourseDistance::input_paths();
        assert(p[0] == "navigation.position"@);
        assert(p[1] == "navigation.courseGreatCircle.nextPoint.position"@);
    }
    if agree(a, b, PreviousPointDistance::input_paths()) {
        let p = PreviousPointDistance::input_paths();
        assert(p[0] == "navigation.position"@);
        assert(p[1] == "navigation.course.previousPoint.position"@);
    }
    if agree(a, b, CourseOverGroundMagnetic::input_paths()) {
        let p = CourseOverGroundMagnetic::input_paths();
        assert(p[0] == "navigation.courseOverGroundTrue"@);
        assert(p[1] == "navigation.magneticVariation"@);
    }
    if agree(a, b, Eta::input_paths()) {
        let p = Eta::input_paths();
        assert(p[0] == "navigation.courseGreatCircle.nextPoint.distance"@);
        assert(p[1] == "navigation.courseGreatCircle.nextPoint.velocityMadeGood"@);
    }
    if agree(a, b, SteerError::input_paths()) {
        let p = SteerError::input_paths();
        assert(p[0] == "navigation.courseOverGroundTrue"@);
        assert(p[1] == "navigation.course.calcValues.bearingTrackTrue"@);
    }
    if agree(a, b, VmgWaypoint::input_paths()) {
        let p = VmgWaypoint::input_paths();
        assert(p[0] == "navigation.speedOverGround"@);
        assert(p[1] == "navigation.courseOverGroundTrue"@);
        assert(p[2] == "navigation.courseGreatCircle.bearingTrackTrue"@);
    }
}

} // verus!
