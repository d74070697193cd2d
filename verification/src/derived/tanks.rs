//! Derived tank data.
use crate::derived::{none_if_empty, number_of, opt_entries, path_views, unless_empty, Values};
use crate::expr::num;
use crate::incoming::ReadingView;
use crate::number::Real;
use crate::signalk::{entries, no_values, push, Entry, PathValue, Value, ValueView};
use crate::text::{before, has_prefix, join, starts_with, strip_suffix};
use crate::units::{ONE, ZERO};
use vstd::prelude::*;

verus! {

/// Derives the volume in each tank from its level and capacity.
#[derive(Debug, Clone, Copy)]
pub struct TankVolume;

impl TankVolume {
    pub fn name(&self) -> (r: &'static str)
        ensures
            r@ == "tankVolume"@,
    {
        "tankVolume"
    }

    /// The paths that the result depends on.
    pub open spec fn input_paths() -> Seq<Seq<char>> {
        seq![
            "tanks"@,
        ]
    }

    /// The paths that the result depends on.
    pub fn inputs(&self) -> (r: Vec<&'static str>)
        ensures
            path_views(r@) == Self::input_paths(),
    {
        let mut out: Vec<&'static str> = Vec::new();
        out.push("tanks");
        assert(path_views(out@) =~= Self::input_paths());
        out
    }

    /// The path of the tank whose capacity stands under a path.
    pub open spec fn tank(path: Seq<char>) -> Option<Seq<char>> {
        match before(path, ".capacity"@) {
            Some(prefix) => if has_prefix(prefix, "tanks."@) {
                Some(prefix)
            } else {
                None
            },
            None => None,
        }
    }

    /// The capacity is positive, and the level is a ratio.
    pub open spec fn usable(capacity: Real, level: Real) -> bool {
        !capacity.le(Real { bits: ZERO }) && (Real { bits: ZERO }).le(level) && level.le(
            Real { bits: ONE },
        )
    }

    /// The volume that follows from the capacity under a path.
    pub open spec fn volume(values: Seq<ReadingView>, path: Seq<char>) -> Option<Entry> {
        match TankVolume::tank(path) {
            Some(prefix) => match (
                number_of(values, path),
                number_of(values, prefix + ".currentLevel"@),
            ) {
                (Some(capacity), Some(level)) => if TankVolume::usable(capacity, level) {
                    Some(
                        Entry {
                            path: prefix + ".currentVolume"@,
                            value: ValueView::Number(num(level).times(num(capacity))),
                        },
                    )
                } else {
                    None
                },
                _ => None,
            },
            None => None,
        }
    }

    /// The volumes that follow from the first `n` values.
    pub open spec fn volumes(values: Seq<ReadingView>, n: nat) -> Seq<Entry>
        decreases n,
    {
        if n == 0 {
            Seq::empty()
        } else {
            let rest = TankVolume::volumes(values, (n - 1) as nat);
            match TankVolume::volume(values, values[n - 1].path) {
                Some(e) => rest.push(e),
                None => rest,
            }
        }
    }

    pub open spec fn derived(values: Seq<ReadingView>) -> Option<Seq<Entry>> {
        unless_empty(TankVolume::volumes(values, values.len()))
    }

    fn push_volume(values: &Values, path: &str, out: &mut Vec<PathValue>)
        ensures
            entries(final(out)@) == (match TankVolume::volume(values@, path@) {
                Some(e) => entries(old(out)@).push(e),
                None => entries(old(out)@),
            }),
    {
        let prefix = match strip_suffix(path, ".capacity") {
            Some(prefix) => prefix,
            None => {
                return ;
            },
        };
        if !starts_with(prefix, "tanks.") {
            return ;
        }
        let level = values.number(join(prefix, ".currentLevel").as_str());
        if let (Some(capacity), Some(level)) = (values.number(path), level) {
            let zero = Real { bits: ZERO };
            if !capacity.at_most(zero) && zero.at_most(level) && level.at_most(
                Real { bits: ONE },
            ) {
                push(
                    out,
                    join(prefix, ".currentVolume").as_str(),
                    Value::Number(num(level).times(num(capacity))),
                );
            }
        }
    }

    pub fn calculate(&self, values: &Values) -> (r: Option<Vec<PathValue>>)
        ensures
            opt_entries(r) == TankVolume::derived(values@),
    {
        let mut out = no_values();
        let mut i: usize = 0;
        while i < values.entries.len()
            invariant
                i <= values.entries@.len(),
                values@.len() == values.entries@.len(),
                entries(out@) == TankVolume::volumes(values@, i as nat),
            decreases values.entries@.len() - i,
        {
            assert(values@[i as int] == values.entries@[i as int]@);
            TankVolume::push_volume(values, values.entries[i].path.as_str(), &mut out);
            i += 1;
        }
        none_if_empty(out)
    }
}

} // verus!
