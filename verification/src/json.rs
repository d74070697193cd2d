//! Received Signal K data, as parsed JSON.
use crate::number::Real;
use crate::text::equal;
use vstd::prelude::*;

verus! {

/// A JSON document. Every number is the double that it denotes.
#[derive(Debug)]
pub enum Json {
    Null,
    Bool(bool),
    Number(Real),
    Text(String),
    List(Vec<Json>),
    Object(Vec<Member>),
}

/// One member of a JSON object.
#[derive(Debug)]
pub struct Member {
    pub key: String,
    pub value: Json,
}

/// The view of a [`Json`] document.
pub enum JsonView {
    Null,
    Bool(bool),
    Number(Real),
    Text(Seq<char>),
    List(Seq<JsonView>),
    Object(Seq<MemberView>),
}

/// The view of a [`Member`].
pub struct MemberView {
    pub key: Seq<char>,
    pub value: JsonView,
}

impl Json {
    pub open spec fn view(&self) -> JsonView
        decreases self,
    {
        match self {
            Json::Null => JsonView::Null,
            Json::Bool(b) => JsonView::Bool(*b),
            Json::Number(x) => JsonView::Number(*x),
            Json::Text(s) => JsonView::Text(s@),
            Json::List(items) => JsonView::List(
                Seq::new(
                    items@.len(),
                    |i: int|
                        if 0 <= i < items@.len() {
                            items@[i].view()
                        } else {
                            JsonView::Null
                        },
                ),
            ),
            Json::Object(members) => JsonView::Object(
                Seq::new(
                    members@.len(),
                    |i: int|
                        if 0 <= i < members@.len() {
                            members@[i].view()
                        } else {
                            MemberView { key: Seq::empty(), value: JsonView::Null }
                        },
                ),
            ),
        }
    }

    /// The number that the document is, if it is one.
    pub fn as_real(&self) -> (r: Option<Real>)
        ensures
            r == number_in(self@),
    {
        match self {
            Json::Number(x) => Some(*x),
            _ => None,
        }
    }

    /// The text that the document is, if it is one.
    pub fn as_str(&self) -> (r: Option<&str>)
        ensures
            (match r {
                Some(s) => Some(s@),
                None => None,
            }) == text_in(self@),
    {
        match self {
            Json::Text(s) => Some(s.as_str()),
            _ => None,
        }
    }

    /// The number under a key of an object.
    pub fn number_at(&self, key: &str) -> (r: Option<Real>)
        ensures
            r == number_at(self@, key@),
    {
        match self.get(key) {
            Some(v) => v.as_real(),
            None => None,
        }
    }

    /// The value under a key, if the document is an object that has the key.
    pub fn get(&self, key: &str) -> (r: Option<&Json>)
        ensures
            (match r {
                Some(v) => Some(v@),
                None => None,
            }) == member(self@, key@),
    {
        match self {
            Json::Object(members) => {
                let ghost views = self@->Object_0;
                let mut i: usize = 0;
                while i < members.len()
                    invariant
                        i <= members@.len(),
                        self@ == JsonView::Object(views),
                        views.len() == members@.len(),
                        forall|k: int| 0 <= k < members@.len() ==> views[k] == members@[k]@,
                        forall|k: int| 0 <= k < i ==> views[k].key != key@,
                    decreases members@.len() - i,
                {
                    if equal(members[i].key.as_str(), key) {
                        proof {
                            assert(views[i as int] == members@[i as int]@);
                            first_member(views, key@, i as int);
                        }
                        return Some(&members[i].value);
                    }
                    i += 1;
                }
                proof {
                    no_member(views, key@);
                }
                None
            },
            _ => None,
        }
    }
}

impl Member {
    pub open spec fn view(&self) -> MemberView
        decreases self,
    {
        MemberView { key: self.key@, value: self.value.view() }
    }
}

/// The number that a document is.
pub open spec fn number_in(j: JsonView) -> Option<Real> {
    match j {
        JsonView::Number(x) => Some(x),
        _ => None,
    }
}

/// The text that a document is.
pub open spec fn text_in(j: JsonView) -> Option<Seq<char>> {
    match j {
        JsonView::Text(s) => Some(s),
        _ => None,
    }
}

/// The value of the first member with the key.
pub open spec fn find_member(members: Seq<MemberView>, key: Seq<char>) -> Option<JsonView>
    decreases members.len(),
{
    if members.len() == 0 {
        None
    } else if members[0].key == key {
        Some(members[0].value)
    } else {
        find_member(members.skip(1), key)
    }
}

/// The value under a key of a document.
pub open spec fn member(j: JsonView, key: Seq<char>) -> Option<JsonView> {
    match j {
        JsonView::Object(members) => find_member(members, key),
        _ => None,
    }
}

/// The number under a key of a document.
pub open spec fn number_at(j: JsonView, key: Seq<char>) -> Option<Real> {
    match member(j, key) {
        Some(v) => number_in(v),
        None => None,
    }
}

/// The latitude and longitude of a document that has both as numbers.
pub open spec fn position_in(j: JsonView) -> Option<(Real, Real)> {
    match (number_at(j, "latitude"@), number_at(j, "longitude"@)) {
        (Some(lat), Some(lon)) => Some((lat, lon)),
        _ => None,
    }
}

/// The latitude and longitude of a document that has both as numbers.
pub fn position_of(j: &Json) -> (r: Option<(Real, Real)>)
    ensures
        r == position_in(j@),
{
    match (j.number_at("latitude"), j.number_at("longitude")) {
        (Some(lat), Some(lon)) => Some((lat, lon)),
        _ => None,
    }
}

proof fn first_member(members: Seq<MemberView>, key: Seq<char>, at: int)
    requires
        0 <= at < members.len(),
        members[at].key == key,
        forall|k: int| 0 <= k < at ==> members[k].key != key,
    ensures
        find_member(members, key) == Some(members[at].value),
    decreases at,
{
    if at > 0 {
        let rest = members.skip(1);
        assert forall|k: int| 0 <= k < at - 1 implies rest[k].key != key by {
            assert(rest[k] == members[k + 1]);
        }
        first_member(rest, key, at - 1);
    }
}

proof fn no_member(members: Seq<MemberView>, key: Seq<char>)
    requires
        forall|k: int| 0 <= k < members.len() ==> members[k].key != key,
    ensures
        find_member(members, key) is None,
    decreases members.len(),
{
    if members.len() > 0 {
        let rest = members.skip(1);
        assert forall|k: int| 0 <= k < rest.len() implies rest[k].key != key by {
            assert(rest[k] == members[k + 1]);
        }
        no_member(rest, key);
    }
}

} // verus!
