//! What is reported under a path.
use crate::expr::Expr;
use crate::number::Real;
use crate::signalk::{
    position_3d_view, with, with_opt, DeltaView, Entry, FieldView, UpdateView, ValueView,
};
use vstd::prelude::*;

verus! {

/// All values under a path, in their order.
pub open spec fn under(list: Seq<Entry>, path: Seq<char>) -> Seq<ValueView>
    decreases list.len(),
{
    if list.len() == 0 {
        Seq::empty()
    } else if list.last().path == path {
        under(list.drop_last(), path).push(list.last().value)
    } else {
        under(list.drop_last(), path)
    }
}

/// All values that a delta reports under a path, in their order.
pub open spec fn under_updates(updates: Seq<UpdateView>, path: Seq<char>) -> Seq<ValueView>
    decreases updates.len(),
{
    if updates.len() == 0 {
        Seq::empty()
    } else {
        under_updates(updates.drop_last(), path) + under(updates.last().values, path)
    }
}

/// All values that a delta reports under a path; none where there is no delta.
pub open spec fn told(delta: Option<DeltaView>, path: Seq<char>) -> Seq<ValueView> {
    match delta {
        Some(d) => under_updates(d.updates, path),
        None => Seq::empty(),
    }
}

/// All values that a calculator gives under a path; none where there is no result.
pub open spec fn given(result: Option<Seq<Entry>>, path: Seq<char>) -> Seq<ValueView> {
    match result {
        Some(list) => under(list, path),
        None => Seq::empty(),
    }
}

/// Exactly one number is reported, and it is that of the formula.
pub open spec fn only(e: Expr) -> Seq<ValueView> {
    seq![ValueView::Number(e)]
}

/// Exactly one number is reported, as it was read; nothing where nothing was read.
pub open spec fn as_read(x: Option<Real>) -> Seq<ValueView> {
    match x {
        Some(v) => seq![ValueView::Number(Expr::Lit(v))],
        None => Seq::empty(),
    }
}

/// Exactly one text is reported, as it was read; nothing where nothing was read.
pub open spec fn text_as_read(x: Option<Seq<char>>) -> Seq<ValueView> {
    match x {
        Some(v) => seq![ValueView::Text(v)],
        None => Seq::empty(),
    }
}

/// Exactly one number is reported, that of the formula; nothing where there is none.
pub open spec fn shown(e: Option<Expr>) -> Seq<ValueView> {
    match e {
        Some(e) => seq![ValueView::Number(e)],
        None => Seq::empty(),
    }
}

/// Exactly one position is reported: an object with the latitude and the longitude.
pub open spec fn place_of(latitude: Expr, longitude: Expr) -> Seq<ValueView> {
    seq![
        ValueView::Object(
            seq![
                FieldView { key: "latitude"@, value: ValueView::Number(latitude) },
                FieldView { key: "longitude"@, value: ValueView::Number(longitude) },
            ],
        ),
    ]
}

/// Exactly one position is reported, as it was read; nothing where a coordinate is missing.
pub open spec fn place_as_read(
    latitude: Option<Real>,
    longitude: Option<Real>,
) -> Seq<ValueView> {
    match (latitude, longitude) {
        (Some(lat), Some(lon)) => place_of(Expr::Lit(lat), Expr::Lit(lon)),
        _ => Seq::empty(),
    }
}

/// Exactly one position is reported: an object with latitude and longitude, and the altitude
/// where it is known.
pub open spec fn place_3d_of(
    latitude: Expr,
    longitude: Expr,
    altitude: Option<Expr>,
) -> Seq<ValueView> {
    match altitude {
        Some(alt) => seq![
            ValueView::Object(
                seq![
                    FieldView { key: "latitude"@, value: ValueView::Number(latitude) },
                    FieldView { key: "longitude"@, value: ValueView::Number(longitude) },
                    FieldView { key: "altitude"@, value: ValueView::Number(alt) },
                ],
            ),
        ],
        None => place_of(latitude, longitude),
    }
}

/// A position with an altitude that may be missing has these members.
pub proof fn position_has_its_members(
    latitude: Expr,
    longitude: Expr,
    altitude: Option<Expr>,
)
    ensures
        Seq::<ValueView>::empty().push(position_3d_view(latitude, longitude, altitude))
            == place_3d_of(latitude, longitude, altitude),
{
    if let Some(alt) = altitude {
        assert(position_3d_view(latitude, longitude, altitude)->Object_0 =~= seq![
            FieldView { key: "latitude"@, value: ValueView::Number(latitude) },
            FieldView { key: "longitude"@, value: ValueView::Number(longitude) },
            FieldView { key: "altitude"@, value: ValueView::Number(alt) },
        ]);
    }
    assert(Seq::<ValueView>::empty().push(position_3d_view(latitude, longitude, altitude))
        =~= place_3d_of(latitude, longitude, altitude));
}

/// An entry shows under its own path and no other.
pub broadcast proof fn entry_shows_under_its_path(
    list: Seq<Entry>,
    at: Seq<char>,
    value: ValueView,
    path: Seq<char>,
)
    ensures
        #[trigger] under(with(list, at, value), path) == (if at == path {
            under(list, path).push(value)
        } else {
            under(list, path)
        }),
{
    assert(with(list, at, value).drop_last() =~= list);
}

/// An entry that may be missing shows under its own path and no other.
pub broadcast proof fn opt_entry_shows_under_its_path(
    list: Seq<Entry>,
    at: Seq<char>,
    value: Option<ValueView>,
    path: Seq<char>,
)
    ensures
        #[trigger] under(with_opt(list, at, value), path) == (match value {
            Some(v) => if at == path {
                under(list, path).push(v)
            } else {
                under(list, path)
            },
            None => under(list, path),
        }),
{
    if let Some(v) = value {
        entry_shows_under_its_path(list, at, v, path);
    }
}

/// Nothing shows in an empty list.
pub broadcast proof fn nothing_shows_in_nothing(path: Seq<char>)
    ensures
        #[trigger] under(Seq::<Entry>::empty(), path) == Seq::<ValueView>::empty(),
{
}

/// What shows under a path, entry by entry.
pub broadcast group group_paths {
    entry_shows_under_its_path,
    opt_entry_shows_under_its_path,
    nothing_shows_in_nothing,
}

/// A delta with one update reports what the update does.
pub proof fn one_update_tells_all(delta: DeltaView, path: Seq<char>)
    requires
        delta.updates.len() == 1,
    ensures
        told(Some(delta), path) == under(delta.updates[0].values, path),
{
    assert(delta.updates.drop_last() =~= Seq::<UpdateView>::empty());
    assert(under_updates(delta.updates.drop_last(), path) =~= Seq::<ValueView>::empty());
    assert(told(Some(delta), path) =~= under(delta.updates[0].values, path));
}

/// Paths below one prefix differ where what follows it does.
pub proof fn suffixes_tell_paths_apart(prefix: Seq<char>, a: Seq<char>, b: Seq<char>)
    ensures
        (prefix + a == prefix + b) == (a == b),
{
    assert((prefix + a).skip(prefix.len() as int) =~= a);
    assert((prefix + b).skip(prefix.len() as int) =~= b);
}

} // verus!
