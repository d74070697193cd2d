//! Derived engine data.
use crate::derived::{none_if_empty, number_of, opt_entries, path_views, unless_empty, Values};
use crate::expr::num;
use crate::incoming::ReadingView;
use crate::json::number_in;
use crate::number::Real;
use crate::signalk::{
    entries, no_values, push, text, with, Entry, PathValue, Value, ValueView,
};
use crate::text::{before, has_prefix, join, starts_with, strip_suffix};
use crate::units::ZERO;
use vstd::prelude::*;

verus! {

/// The path of the engine whose revolutions stand under a path.
pub open spec fn engine(path: Seq<char>) -> Option<Seq<char>> {
    match before(path, ".revolutions"@) {
        Some(prefix) => if has_prefix(prefix, "propulsion."@) {
            Some(prefix)
        } else {
            None
        },
        None => None,
    }
}

fn engine_of<'a>(path: &'a str) -> (r: Option<&'a str>)
    ensures
        (match r {
            Some(prefix) => Some(prefix@),
            None => None,
        }) == engine(path@),
{
    match strip_suffix(path, ".revolutions") {
        Some(prefix) => if starts_with(prefix, "propulsion.") {
            Some(prefix)
        } else {
            None
        },
        None => None,
    }
}

/// Derives whether each engine is running.
#[derive(Debug, Clone, Copy)]
pub struct PropState;

impl PropState {
    pub fn name(&self) -> (r: &'static str)
        ensures
            r@ == "propState"@,
    {
        "propState"
    }

    /// The paths that the result depends on.
    pub open spec fn input_paths() -> Seq<Seq<char>> {
        seq![
            "propulsion"@,
        ]
    }

    /// The paths that the result depends on.
    pub fn inputs(&self) -> (r: Vec<&'static str>)
        ensures
            path_views(r@) == Self::input_paths(),
    {
        let mut out: Vec<&'static str> = Vec::new();
        out.push("propulsion");
        assert(path_views(out@) =~= Self::input_paths());
        out
    }

    /// The states of the engines among the first values.
    pub open spec fn states(values: Seq<ReadingView>) -> Seq<Entry>
        decreases values.len(),
    {
        if values.len() == 0 {
            Seq::empty()
        } else {
            let rest = PropState::states(values.drop_last());
            let r = values.last();
            match (engine(r.path), number_in(r.value)) {
                (Some(prefix), Some(rpm)) => with(
                    rest,
                    prefix + ".state.value"@,
                    ValueView::Text(
                        if (Real { bits: ZERO }).lt(rpm) {
                            "started"@
                        } else {
                            "stopped"@
                        },
                    ),
                ),
                _ => rest,
            }
        }
    }

    pub open spec fn derived(values: Seq<ReadingView>) -> Option<Seq<Entry>> {
        unless_empty(PropState::states(values))
    }

    pub fn calculate(&self, values: &Values) -> (r: Option<Vec<PathValue>>)
        ensures
            opt_entries(r) == PropState::derived(values@),
    {
        let ghost all = values@;
        let mut out = no_values();
        assert(all.take(0) =~= Seq::empty());
        let mut i: usize = 0;
        while i < values.entries.len()
            invariant
                i <= values.entries@.len(),
                all == values@,
                all.len() == values.entries@.len(),
                entries(out@) == PropState::states(all.take(i as int)),
            decreases values.entries@.len() - i,
        {
            let reading = &values.entries[i];
            proof {
                assert(all[i as int] == reading@);
                assert(all.take(i + 1).drop_last() =~= all.take(i as int));
                assert(all.take(i + 1).last() == reading@);
            }
            if let Some(prefix) = engine_of(reading.path.as_str()) {
                if let Some(rpm) = reading.value.as_real() {
                    let zero = Real { bits: ZERO };
                    let path = join(prefix, ".state.value");
                    if zero.less_than(rpm) {
                        push(&mut out, path.as_str(), text("started"));
                    } else {
                        push(&mut out, path.as_str(), text("stopped"));
                    }
                }
            }
            i += 1;
        }
        assert(all.take(all.len() as int) =~= all);
        none_if_empty(out)
    }
}

/// Derives an indicative slip of each propeller: speed through the water per revolution.
#[derive(Debug, Clone, Copy)]
pub struct PropSlip;

impl PropSlip {
    pub fn name(&self) -> (r: &'static str)
        ensures
            r@ == "propSlip"@,
    {
        "propSlip"
    }

    /// The paths that the result depends on.
    pub open spec fn input_paths() -> Seq<Seq<char>> {
        seq![
            "navigation.speedThroughWater"@,
            "propulsion"@,
        ]
    }

    /// The paths that the result depends on.
    pub fn inputs(&self) -> (r: Vec<&'static str>)
        ensures
            path_views(r@) == Self::input_paths(),
    {
        let mut out: Vec<&'static str> = Vec::new();
        out.push("navigation.speedThroughWater");
        out.push("propulsion");
        assert(path_views(out@) =~= Self::input_paths());
        out
    }

    /// The slips of the engines among the first values. Engines that stand still have
    /// none.
    pub open spec fn slips(values: Seq<ReadingView>, stw: Real) -> Seq<Entry>
        decreases values.len(),
    {
        if values.len() == 0 {
            Seq::empty()
        } else {
            let rest = PropSlip::slips(values.drop_last(), stw);
            let r = values.last();
            match (engine(r.path), number_in(r.value)) {
                (Some(prefix), Some(revolutions)) => if revolutions.le(Real { bits: ZERO }) {
                    rest
                } else {
                    with(
                        rest,
                        prefix + ".drive.propeller.slip"@,
                        ValueView::Number(num(stw).over(num(revolutions))),
                    )
                },
                _ => rest,
            }
        }
    }

    pub open spec fn derived(values: Seq<ReadingView>) -> Option<Seq<Entry>> {
        match number_of(values, "navigation.speedThroughWater"@) {
            Some(stw) => unless_empty(PropSlip::slips(values, stw)),
            None => None,
        }
    }

    pub fn calculate(&self, values: &Values) -> (r: Option<Vec<PathValue>>)
        ensures
            opt_entries(r) == PropSlip::derived(values@),
    {
        let stw = match values.number("navigation.speedThroughWater") {
            Some(x) => x,
            None => {
                return None;
            },
        };
        let ghost all = values@;
        let mut out = no_values();
        assert(all.take(0) =~= Seq::empty());
        let mut i: usize = 0;
        while i < values.entries.len()
            invariant
                i <= values.entries@.len(),
                all == values@,
                all.len() == values.entries@.len(),
                entries(out@) == PropSlip::slips(all.take(i as int), stw),
            decreases values.entries@.len() - i,
        {
            let reading = &values.entries[i];
            proof {
                assert(all[i as int] == reading@);
                assert(all.take(i + 1).drop_last() =~= all.take(i as int));
                assert(all.take(i + 1).last() == reading@);
            }
            if let Some(prefix) = engine_of(reading.path.as_str()) {
                if let Some(revolutions) = reading.value.as_real() {
                    let zero = Real { bits: ZERO };
                    if !revolutions.at_most(zero) {
                        push(
                            &mut out,
                            join(prefix, ".drive.propeller.slip").as_str(),
                            Value::Number(num(stw).over(num(revolutions))),
                        );
                    }
                }
            }
            i += 1;
        }
        assert(all.take(all.len() as int) =~= all);
        none_if_empty(out)
    }
}

} // verus!
