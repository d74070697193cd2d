//! Laws of AIS target tracking.
use crate::incoming::ReadingView;
use crate::tracker::{
    aged, aged_targets, aging_transitions, arrived_since, class_of, consistent, count_of,
    is_tracked, lookup, nanos, observed, place_of, sighted, silence, tracked_at,
    ClassThresholds, TargetStatus, TargetView,
};
use vstd::prelude::*;

verus! {

/// Every target has exactly one status: the three counts add up to the number of
/// targets.
pub proof fn counts_add_up(list: Seq<TargetView>)
    ensures
        count_of(list, TargetStatus::Confirmed) + count_of(list, TargetStatus::Lost) + count_of(
            list,
            TargetStatus::Unconfirmed,
        ) == list.len(),
    decreases list.len(),
{
    if list.len() > 0 {
        counts_add_up(list.drop_last());
    }
}

/// Where a target stands, it is found.
pub proof fn lookup_finds(list: Seq<TargetView>, i: int)
    requires
        consistent(list),
        0 <= i < list.len(),
    ensures
        lookup(list, list[i].mmsi) == Some(list[i]),
{
    let mmsi = list[i].mmsi;
    assert(tracked_at(list, mmsi, i));
    let p = place_of(list, mmsi);
    assert(tracked_at(list, mmsi, p));
    if p < i {
        assert(list[p].mmsi != list[i].mmsi);
    }
    if i < p {
        assert(list[i].mmsi != list[p].mmsi);
    }
}

/// A message changes the target it comes from, and no other.
pub proof fn message_concerns_one_target(
    list: Seq<TargetView>,
    mmsi: Seq<char>,
    thresholds: ClassThresholds,
    values: Seq<ReadingView>,
    now: u64,
    other: Seq<char>,
)
    requires
        consistent(list),
    ensures
        lookup(observed(list, mmsi, thresholds, values, now), mmsi) == Some(
            sighted(list, mmsi, thresholds, now).with_values(values).recorded(now),
        ),
        other != mmsi ==> lookup(observed(list, mmsi, thresholds, values, now), other) == lookup(
            list,
            other,
        ),
{
    let next = observed(list, mmsi, thresholds, values, now);
    let target = sighted(list, mmsi, thresholds, now);
    crate::tracker::keeps_identity(target, values);
    let at = if is_tracked(list, mmsi) {
        place_of(list, mmsi)
    } else {
        list.len() as int
    };
    assert(next[at] == target.with_values(values).recorded(now));
    assert(tracked_at(next, mmsi, at));
    assert forall|k: int| tracked_at(next, mmsi, k) implies k == at by {
        if is_tracked(list, mmsi) {
            if k < at {
                assert(list[k].mmsi != list[at].mmsi);
            }
            if at < k {
                assert(list[at].mmsi != list[k].mmsi);
            }
        } else if k < list.len() {
            assert(tracked_at(list, mmsi, k));
        }
    }
    assert(tracked_at(next, mmsi, place_of(next, mmsi)));
    if other != mmsi {
        assert forall|k: int| tracked_at(next, other, k) == tracked_at(list, other, k) by {
            if 0 <= k < next.len() && k != at {
                assert(next[k] == list[k]);
            }
        }
        if is_tracked(list, other) {
            let k = place_of(list, other);
            assert(tracked_at(next, other, k));
            let q = place_of(next, other);
            assert(tracked_at(list, other, q));
            if q < k {
                assert(list[q].mmsi != list[k].mmsi);
            }
            if k < q {
                assert(list[k].mmsi != list[q].mmsi);
            }
        } else if is_tracked(next, other) {
            assert(tracked_at(list, other, place_of(next, other)));
        }
    }
}

/// A confirmed target is never removed at once: it is lost first.
pub proof fn confirmed_is_lost_before_removed(t: TargetView, now: u64)
    requires
        t.status is Confirmed,
    ensures
        aged(t, now) is Some,
        (aged(t, now)->0).status is Lost <==> silence(t, now) > nanos(
            t.thresholds.lost_after as int,
        ),
{
}

/// A lost target is confirmed by the next message, whatever its thresholds.
pub proof fn lost_target_comes_back(t: TargetView, now: u64)
    requires
        t.status is Lost,
    ensures
        t.recorded(now).status is Confirmed,
        t.recorded(now).recent_messages == seq![now],
{
}

/// No message makes a target lost or unconfirmed.
pub proof fn messages_never_demote(t: TargetView, now: u64)
    ensures
        !(t.recorded(now).status is Lost),
        t.status is Confirmed ==> t.recorded(now).status is Confirmed,
{
}

/// A target whose class asks for one message is confirmed by its first.
pub proof fn one_message_confirms(mmsi: Seq<char>, context: Seq<char>, now: u64)
    requires
        class_of(mmsi) is Aton || class_of(mmsi) is Base || class_of(mmsi) is Sar,
    ensures
        TargetView::fresh(
            mmsi,
            context,
            ClassThresholds::for_class(class_of(mmsi)),
            now,
        ).recorded(now).status is Confirmed,
{
    let none = Seq::<u64>::empty();
    assert(none.push(now).drop_last() =~= none);
    reveal_with_fuel(arrived_since, 2);
}

/// A vessel is confirmed by its second message if that comes no later than 180
/// seconds after the first, and is not if it comes later.
pub proof fn second_message_confirms_vessel(
    mmsi: Seq<char>,
    context: Seq<char>,
    first: u64,
    second: u64,
)
    requires
        class_of(mmsi) is Vessel,
        first <= second,
        second >= nanos(180),
    ensures
        ({
            let fresh = TargetView::fresh(
                mmsi,
                context,
                ClassThresholds::for_class(class_of(mmsi)),
                first,
            );
            &&& fresh.recorded(first).status is Unconfirmed
            &&& fresh.recorded(first).recorded(second).status is Confirmed <==> second - first
                <= nanos(180)
        }),
{
    let none = Seq::<u64>::empty();
    assert(none.push(first).drop_last() =~= none);
    let one = none.push(first);
    assert(one.push(second).drop_last() =~= one);
    reveal_with_fuel(arrived_since, 3);
}

/// With the passing of time every target becomes what it alone would become.
pub proof fn aging_is_pointwise(list: Seq<TargetView>, now: u64, mmsi: Seq<char>)
    requires
        consistent(list),
    ensures
        lookup(aged_targets(list, now), mmsi) == (match lookup(list, mmsi) {
            Some(t) => aged(t, now),
            None => None,
        }),
{
    let next = aged_targets(list, now);
    crate::tracker::aging_keeps_consistency(list, now);
    if is_tracked(next, mmsi) {
        let q = place_of(next, mmsi);
        assert(tracked_at(next, mmsi, q));
        let j = crate::tracker::aged_come_from(list, now, q);
        assert(tracked_at(list, mmsi, j));
        lookup_finds(list, j);
    } else if is_tracked(list, mmsi) {
        let j = place_of(list, mmsi);
        assert(tracked_at(list, mmsi, j));
        if aged(list[j], now) is Some {
            let i = aged_is_kept(list, now, j);
            assert(tracked_at(next, mmsi, i));
        }
    }
}

/// What survives aging is found among the targets that are left.
pub proof fn aged_is_kept(list: Seq<TargetView>, now: u64, j: int) -> (i: int)
    requires
        0 <= j < list.len(),
        aged(list[j], now) is Some,
    ensures
        0 <= i < aged_targets(list, now).len(),
        aged(list[j], now) == Some(aged_targets(list, now)[i]),
    decreases list.len(),
{
    let rest = list.drop_last();
    if j == list.len() - 1 {
        aged_targets(rest, now).len() as int
    } else {
        aged_is_kept(rest, now, j)
    }
}

/// Letting time pass twice at the same moment reports nothing the second time.
pub proof fn second_tick_is_quiet(list: Seq<TargetView>, now: u64)
    ensures
        aging_transitions(aged_targets(list, now), now) == Seq::<
            crate::tracker::TransitionView,
        >::empty(),
    decreases list.len(),
{
    if list.len() > 0 {
        let rest = list.drop_last();
        second_tick_is_quiet(rest, now);
        if let Some(t) = aged(list.last(), now) {
            let next = aged_targets(rest, now).push(t);
            assert(next.drop_last() =~= aged_targets(rest, now));
        }
    }
}

} // verus!
