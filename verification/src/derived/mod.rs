//! Data derived from other data.
//!
//! A calculator looks at the values that are known and gives the values that
//! follow from them, or nothing where an input is missing or unusable.
pub mod course;
pub mod geo;
pub mod heat;
pub mod laws;
pub mod meaning;
pub mod moon;
pub mod motion;
pub mod propulsion;
pub mod tanks;
pub mod weather;

use crate::incoming::{readings, Reading, ReadingView};
use crate::json::{
    number_at, number_in, position_in, position_of, text_in, Json, JsonView,
};
use crate::number::Real;
use crate::signalk::{entries, Entry, PathValue};
use crate::text::equal;
use vstd::prelude::*;

verus! {

/// The known values, each path once.
#[derive(Debug)]
pub struct Values {
    pub entries: Vec<Reading>,
}

/// The value under a path.
pub open spec fn lookup(values: Seq<ReadingView>, path: Seq<char>) -> Option<JsonView>
    decreases values.len(),
{
    if values.len() == 0 {
        None
    } else if values[0].path == path {
        Some(values[0].value)
    } else {
        lookup(values.skip(1), path)
    }
}

/// The values with the one under `path` replaced or added.
pub open spec fn inserted(
    values: Seq<ReadingView>,
    path: Seq<char>,
    value: JsonView,
) -> Seq<ReadingView>
    decreases values.len(),
{
    if values.len() == 0 {
        seq![ReadingView { path, value }]
    } else if values[0].path == path {
        seq![ReadingView { path, value }] + values.skip(1)
    } else {
        seq![values[0]] + inserted(values.skip(1), path, value)
    }
}

/// No path occurs twice.
pub open spec fn distinct(values: Seq<ReadingView>) -> bool {
    forall|i: int, j: int|
        0 <= i < j < values.len() ==> (#[trigger] values[i]).path != (#[trigger] values[j]).path
}

/// Two sets of values agree on some paths.
pub open spec fn agree(a: Seq<ReadingView>, b: Seq<ReadingView>, paths: Seq<Seq<char>>) -> bool {
    forall|i: int| 0 <= i < paths.len() ==> lookup(a, #[trigger] paths[i]) == lookup(b, paths[i])
}

/// The number under a path.
pub open spec fn number_of(values: Seq<ReadingView>, path: Seq<char>) -> Option<Real> {
    match lookup(values, path) {
        Some(j) => number_in(j),
        None => None,
    }
}

/// The text under a path.
pub open spec fn text_of(values: Seq<ReadingView>, path: Seq<char>) -> Option<Seq<char>> {
    match lookup(values, path) {
        Some(j) => text_in(j),
        None => None,
    }
}

/// The latitude and longitude under a path.
pub open spec fn position_at(values: Seq<ReadingView>, path: Seq<char>) -> Option<(Real, Real)> {
    match lookup(values, path) {
        Some(j) => position_in(j),
        None => None,
    }
}

/// The number that is a member of the object under a path.
pub open spec fn member_number(
    values: Seq<ReadingView>,
    path: Seq<char>,
    key: Seq<char>,
) -> Option<Real> {
    match lookup(values, path) {
        Some(j) => number_at(j, key),
        None => None,
    }
}

/// The views of a list of paths.
pub open spec fn path_views(paths: Seq<&'static str>) -> Seq<Seq<char>> {
    paths.map_values(|p: &'static str| p@)
}

/// The view of the result of a calculator.
pub open spec fn opt_entries(r: Option<Vec<PathValue>>) -> Option<Seq<Entry>> {
    match r {
        Some(values) => Some(entries(values@)),
        None => None,
    }
}

/// A list of results, where there is one.
pub open spec fn unless_empty(list: Seq<Entry>) -> Option<Seq<Entry>> {
    if list.len() == 0 {
        None
    } else {
        Some(list)
    }
}

/// A list of results, where there is one.
pub fn none_if_empty(out: Vec<PathValue>) -> (r: Option<Vec<PathValue>>)
    ensures
        opt_entries(r) == unless_empty(entries(out@)),
{
    if out.len() == 0 {
        None
    } else {
        Some(out)
    }
}

proof fn found_at(values: Seq<ReadingView>, path: Seq<char>, at: int)
    requires
        0 <= at < values.len(),
        values[at].path == path,
        forall|k: int| 0 <= k < at ==> (#[trigger] values[k]).path != path,
    ensures
        lookup(values, path) == Some(values[at].value),
        forall|v: JsonView| #[trigger]
            inserted(values, path, v) == values.update(at, ReadingView { path, value: v }),
    decreases at,
{
    if at == 0 {
        assert forall|v: JsonView| #[trigger] inserted(values, path, v) == values.update(
            at,
            ReadingView { path, value: v },
        ) by {
            assert(seq![ReadingView { path, value: v }] + values.skip(1) =~= values.update(
                0,
                ReadingView { path, value: v },
            ));
        }
    } else {
        let rest = values.skip(1);
        assert forall|k: int| 0 <= k < at - 1 implies (#[trigger] rest[k]).path != path by {
            assert(rest[k] == values[k + 1]);
        }
        found_at(rest, path, at - 1);
        assert forall|v: JsonView| #[trigger] inserted(values, path, v) == values.update(
            at,
            ReadingView { path, value: v },
        ) by {
            assert(inserted(rest, path, v) == rest.update(
                at - 1,
                ReadingView { path, value: v },
            ));
            assert(seq![values[0]] + rest.update(at - 1, ReadingView { path, value: v })
                =~= values.update(at, ReadingView { path, value: v }));
        }
    }
}

proof fn found_nowhere(values: Seq<ReadingView>, path: Seq<char>)
    requires
        forall|k: int| 0 <= k < values.len() ==> (#[trigger] values[k]).path != path,
    ensures
        lookup(values, path) is None,
        forall|v: JsonView| #[trigger]
            inserted(values, path, v) == values.push(ReadingView { path, value: v }),
    decreases values.len(),
{
    if values.len() == 0 {
        assert forall|v: JsonView| #[trigger] inserted(values, path, v) == values.push(
            ReadingView { path, value: v },
        ) by {
            assert(seq![ReadingView { path, value: v }] =~= values.push(
                ReadingView { path, value: v },
            ));
        }
    } else {
        let rest = values.skip(1);
        assert forall|k: int| 0 <= k < rest.len() implies (#[trigger] rest[k]).path != path by {
            assert(rest[k] == values[k + 1]);
        }
        found_nowhere(rest, path);
        assert forall|v: JsonView| #[trigger] inserted(values, path, v) == values.push(
            ReadingView { path, value: v },
        ) by {
            assert(inserted(rest, path, v) == rest.push(ReadingView { path, value: v }));
            assert(seq![values[0]] + rest.push(ReadingView { path, value: v }) =~= values.push(
                ReadingView { path, value: v },
            ));
        }
    }
}

impl Values {
    pub open spec fn view(&self) -> Seq<ReadingView> {
        readings(self.entries@)
    }

    pub open spec fn well_formed(&self) -> bool {
        distinct(self@)
    }

    pub fn new() -> (r: Self)
        ensures
            r@ == Seq::<ReadingView>::empty(),
            r.well_formed(),
    {
        let r = Values { entries: Vec::new() };
        assert(r@ =~= Seq::<ReadingView>::empty());
        r
    }

    /// The index of a path, or the number of entries.
    fn index_of(&self, path: &str) -> (r: usize)
        ensures
            r <= self@.len(),
            r < self@.len() ==> self@[r as int].path == path@,
            forall|k: int| 0 <= k < r ==> (#[trigger] self@[k]).path != path@,
    {
        let mut i: usize = 0;
        while i < self.entries.len()
            invariant
                i <= self.entries@.len(),
                forall|k: int| 0 <= k < i ==> (#[trigger] self@[k]).path != path@,
            decreases self.entries@.len() - i,
        {
            assert(self@[i as int] == self.entries@[i as int]@);
            if equal(self.entries[i].path.as_str(), path) {
                return i;
            }
            i += 1;
        }
        i
    }

    /// Replaces or adds the value under a path.
    pub fn insert(&mut self, path: &str, value: Json)
        requires
            old(self).well_formed(),
        ensures
            final(self)@ == inserted(old(self)@, path@, value@),
            final(self).well_formed(),
    {
        let i = self.index_of(path);
        let reading = Reading { path: path.to_string(), value };
        let ghost before = self@;
        if i < self.entries.len() {
            proof {
                found_at(before, path@, i as int);
            }
            self.entries.set(i, reading);
            assert(self@ =~= before.update(i as int, reading@));
        } else {
            proof {
                found_nowhere(before, path@);
            }
            self.entries.push(reading);
            assert(self@ =~= before.push(reading@));
        }
    }

    /// The value under a path.
    pub fn get(&self, path: &str) -> (r: Option<&Json>)
        ensures
            (match r {
                Some(v) => Some(v@),
                None => None,
            }) == lookup(self@, path@),
    {
        let i = self.index_of(path);
        if i < self.entries.len() {
            proof {
                found_at(self@, path@, i as int);
                assert(self@[i as int] == self.entries@[i as int]@);
            }
            Some(&self.entries[i].value)
        } else {
            proof {
                found_nowhere(self@, path@);
            }
            None
        }
    }

    /// The number under a path.
    pub fn number(&self, path: &str) -> (r: Option<Real>)
        ensures
            r == number_of(self@, path@),
    {
        match self.get(path) {
            Some(j) => j.as_real(),
            None => None,
        }
    }

    /// The latitude and longitude under a path.
    pub fn position(&self, path: &str) -> (r: Option<(Real, Real)>)
        ensures
            r == position_at(self@, path@),
    {
        match self.get(path) {
            Some(j) => position_of(j),
            None => None,
        }
    }

    /// The number that is a member of the object under a path.
    pub fn member_number(&self, path: &str, key: &str) -> (r: Option<Real>)
        ensures
            r == member_number(self@, path@, key@),
    {
        match self.get(path) {
            Some(j) => j.number_at(key),
            None => None,
        }
    }
}

/// A value that was inserted is found under its path, and every other path keeps its
/// value.
pub proof fn insertion_is_local(
    values: Seq<ReadingView>,
    path: Seq<char>,
    value: JsonView,
    other: Seq<char>,
)
    ensures
        lookup(inserted(values, path, value), path) == Some(value),
        other != path ==> lookup(inserted(values, path, value), other) == lookup(values, other),
    decreases values.len(),
{
    let after = inserted(values, path, value);
    if values.len() == 0 {
        assert(after.skip(1) =~= Seq::<ReadingView>::empty());
        reveal_with_fuel(lookup, 2);
    } else if values[0].path == path {
        assert(after.skip(1) =~= values.skip(1));
    } else {
        insertion_is_local(values.skip(1), path, value, other);
        assert(after.skip(1) =~= inserted(values.skip(1), path, value));
        assert(after[0] == values[0]);
    }
}

} // verus!
