//! Deltas as they are received.
use crate::json::{Json, JsonView};
use crate::signalk::{Source, SourceView};
use vstd::prelude::*;

verus! {

/// A received value under its path.
#[derive(Debug)]
pub struct Reading {
    pub path: String,
    pub value: Json,
}

/// The view of a [`Reading`].
pub struct ReadingView {
    pub path: Seq<char>,
    pub value: JsonView,
}

impl Reading {
    pub open spec fn view(&self) -> ReadingView {
        ReadingView { path: self.path@, value: self.value@ }
    }
}

/// The views of a list of readings.
pub open spec fn readings(values: Seq<Reading>) -> Seq<ReadingView> {
    values.map_values(|r: Reading| r@)
}

/// Received values that came together from one source.
#[derive(Debug)]
pub struct IncomingUpdate {
    pub source: Source,
    pub values: Vec<Reading>,
}

/// The view of an [`IncomingUpdate`].
pub struct IncomingUpdateView {
    pub source: SourceView,
    pub values: Seq<ReadingView>,
}

impl IncomingUpdate {
    pub open spec fn view(&self) -> IncomingUpdateView {
        IncomingUpdateView { source: self.source@, values: readings(self.values@) }
    }
}

/// A received delta.
#[derive(Debug)]
pub struct Incoming {
    pub context: Option<String>,
    pub updates: Vec<IncomingUpdate>,
}

/// The views of a list of updates.
pub open spec fn update_views(updates: Seq<IncomingUpdate>) -> Seq<IncomingUpdateView> {
    updates.map_values(|u: IncomingUpdate| u@)
}

/// All values of some updates, in order.
pub open spec fn all_values(updates: Seq<IncomingUpdateView>) -> Seq<ReadingView>
    decreases updates.len(),
{
    if updates.len() == 0 {
        Seq::empty()
    } else {
        all_values(updates.drop_last()) + updates.last().values
    }
}

/// All values of some updates, in order.
pub fn flatten(updates: Vec<IncomingUpdate>) -> (out: Vec<Reading>)
    ensures
        readings(out@) == all_values(update_views(updates@)),
{
    let ghost views = update_views(updates@);
    let mut rest = updates;
    let mut back: Vec<Vec<Reading>> = Vec::new();
    while rest.len() > 0
        invariant
            rest@.len() <= views.len(),
            update_views(rest@) == views.take(rest@.len() as int),
            back@.len() == views.len() - rest@.len(),
            forall|k: int|
                0 <= k < back@.len() ==> readings((#[trigger] back@[k])@) == views[views.len() - 1
                    - k].values,
        decreases rest@.len(),
    {
        let ghost n = rest@.len();
        assert(update_views(rest@)[n - 1] == views[n - 1]);
        match rest.pop() {
            Some(u) => {
                back.push(u.values);
                assert(update_views(rest@) =~= views.take(n - 1));
            },
            None => {},
        }
    }
    let mut out: Vec<Reading> = Vec::new();
    assert(readings(out@) =~= Seq::empty());
    assert(views.take(0) =~= Seq::empty());
    while back.len() > 0
        invariant
            back@.len() <= views.len(),
            forall|k: int|
                0 <= k < back@.len() ==> readings((#[trigger] back@[k])@) == views[views.len() - 1
                    - k].values,
            readings(out@) == all_values(views.take(views.len() - back@.len())),
        decreases back@.len(),
    {
        let ghost done = views.len() - back@.len();
        let ghost before = readings(out@);
        proof {
            let last = back@[back@.len() - 1];
            assert(readings(last@) == views[done].values);
            assert(views.take(done + 1).drop_last() =~= views.take(done));
        }
        match back.pop() {
            Some(values) => {
                let mut more = values;
                let ghost added = readings(more@);
                out.append(&mut more);
                assert(readings(out@) =~= before + added);
            },
            None => {},
        }
    }
    assert(views.take(views.len() as int) =~= views);
    out
}

} // verus!
