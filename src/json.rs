use vstd::prelude::*;

verus! {

broadcast use vstd::std_specs::vec::group_vec_axioms, vstd::seq::group_seq_axioms;

/// A JSON value, as the remote index sends it.
#[derive(Debug)]
pub enum Json {
    Null,
    Bool(bool),
    Number(String),
    Str(String),
    Array(Vec<Json>),
    Object(Vec<(String, Json)>),
}

/// The mathematical value of a [`Json`].
pub enum JsonView {
    Null,
    Bool(bool),
    Number(Seq<char>),
    Str(Seq<char>),
    Array(Seq<JsonView>),
    Object(Seq<(Seq<char>, JsonView)>),
}

/// The mathematical value of a JSON value: the same tree, with strings as
/// sequences of characters.
pub open spec fn json_view(j: Json) -> JsonView
    decreases j,
{
    match j {
        Json::Null => JsonView::Null,
        Json::Bool(b) => JsonView::Bool(b),
        Json::Number(n) => JsonView::Number(n@),
        Json::Str(s) => JsonView::Str(s@),
        Json::Array(a) => JsonView::Array(
            Seq::new(a@.len(), |i: int| if 0 <= i < a@.len() { json_view(a@[i]) } else { JsonView::Null }),
        ),
        Json::Object(m) => JsonView::Object(
            Seq::new(m@.len(), |i: int| if 0 <= i < m@.len() { (m@[i].0@, json_view(m@[i].1)) } else { (Seq::empty(), JsonView::Null) }),
        ),
    }
}

impl View for Json {
    type V = JsonView;

    open spec fn view(&self) -> JsonView {
        json_view(*self)
    }
}

#[verifier::external_type_specification]
#[verifier::external_body]
pub struct ExValue(serde_json::Value);

#[verifier::external_type_specification]
#[verifier::external_body]
pub struct ExJsonError(serde_json::Error);

/// Whether serde_json accepts a text as one JSON value.
pub uninterp spec fn json_accepts(text: Seq<char>) -> bool;

/// The JSON value that serde_json reads from a text it accepts.
pub uninterp spec fn json_of(text: Seq<char>) -> JsonView;

/// Relies on the variants of serde_json::Value, and on the text form of
/// serde_json::Number: each value is carried over as it is, an object's
/// members in the order that its map gives.
#[verifier::external_body]
fn json_from_value(v: serde_json::Value) -> (r: Json) {
    match v {
        serde_json::Value::Null => Json::Null,
        serde_json::Value::Bool(b) => Json::Bool(b),
        serde_json::Value::Number(n) => Json::Number(n.to_string()),
        serde_json::Value::String(s) => Json::Str(s),
        serde_json::Value::Array(a) => Json::Array(a.into_iter().map(json_from_value).collect()),
        serde_json::Value::Object(o) => Json::Object(
            o.into_iter().map(|(k, x)| (k, json_from_value(x))).collect(),
        ),
    }
}

/// Relies on serde_json::from_str: it fails exactly on the texts that are not
/// one JSON value, and otherwise gives the value that the text holds (both
/// depend on the text alone).
#[verifier::external_body]
pub(crate) fn parse_json(text: &str) -> (r: Result<Json, serde_json::Error>)
    ensures
        r is Ok <==> json_accepts(text@),
        r is Ok ==> r->Ok_0@ == json_of(text@),
{
    serde_json::from_str::<serde_json::Value>(text).map(json_from_value)
}

/// The value of the first member of an object that has the key, if any.
pub open spec fn member_of(members: Seq<(Seq<char>, JsonView)>, key: Seq<char>) -> Option<
    JsonView,
> {
    if exists|i: int| 0 <= i < members.len() && (#[trigger] members[i]).0 == key {
        let i = choose|i: int|
            0 <= i < members.len() && (#[trigger] members[i]).0 == key && forall|k: int|
                0 <= k < i ==> (#[trigger] members[k]).0 != key;
        Some(members[i].1)
    } else {
        None
    }
}

/// The string that a member of an object holds, if the value is an object
/// with that member and the member is a string.
pub open spec fn string_member_spec(j: JsonView, key: Seq<char>) -> Option<Seq<char>> {
    match j {
        JsonView::Object(members) => match member_of(members, key) {
            Some(JsonView::Str(s)) => Some(s),
            _ => None,
        },
        _ => None,
    }
}

/// The elements of an array member of an object, if the value is an object
/// with that member and the member is an array.
pub open spec fn array_member_spec(j: JsonView, key: Seq<char>) -> Option<Seq<JsonView>> {
    match j {
        JsonView::Object(members) => match member_of(members, key) {
            Some(JsonView::Array(items)) => Some(items),
            _ => None,
        },
        _ => None,
    }
}

/// The position of the first member with the key.
fn find_member(members: &Vec<(String, Json)>, key: &str) -> (r: Option<usize>)
    ensures
        ({
            let ms = Seq::new(members@.len(), |i: int| (members@[i].0@, members@[i].1@));
            match r {
                Some(i) => i < members@.len() && member_of(ms, key@) == Some(members@[i as int].1@),
                None => member_of(ms, key@) is None,
            }
        }),
{
    let ghost ms = Seq::new(members@.len(), |i: int| (members@[i].0@, members@[i].1@));
    let wanted = String::from_str(key);
    let mut i: usize = 0;
    while i < members.len()
        invariant
            0 <= i <= members@.len(),
            wanted@ == key@,
            ms == Seq::new(members@.len(), |i: int| (members@[i].0@, members@[i].1@)),
            forall|k: int| 0 <= k < i ==> (#[trigger] ms[k]).0 != key@,
        decreases members.len() - i,
    {
        if members[i].0 == wanted {
            assert(ms[i as int].0 == key@);
            let ghost c = choose|c: int|
                0 <= c < ms.len() && (#[trigger] ms[c]).0 == key@ && forall|k: int|
                    0 <= k < c ==> (#[trigger] ms[k]).0 != key@;
            assert(c == i) by {
                if c < i {
                    assert(ms[c].0 != key@);
                } else if c > i {
                    assert(ms[i as int].0 != key@);
                }
            }
            return Some(i);
        }
        i = i + 1;
    }
    None
}

/// Reads a string member of an object.
pub fn string_member(j: &Json, key: &str) -> (r: Option<String>)
    ensures
        match r {
            Some(s) => string_member_spec(j@, key@) == Some(s@),
            None => string_member_spec(j@, key@) is None,
        },
{
    match j {
        Json::Object(members) => {
            let ghost ms = Seq::new(members@.len(), |i: int| (members@[i].0@, members@[i].1@));
            assert(j@->Object_0 =~= ms);
            assert(j@ == JsonView::Object(ms));
            match find_member(members, key) {
                Some(i) => match &members[i].1 {
                    Json::Str(s) => Some(s.clone()),
                    _ => None,
                },
                None => None,
            }
        },
        _ => None,
    }
}

/// Reads an array member of an object.
pub fn array_member<'a>(j: &'a Json, key: &str) -> (r: Option<&'a Vec<Json>>)
    ensures
        match r {
            Some(items) => array_member_spec(j@, key@) == Some(
                Seq::new(items@.len(), |i: int| items@[i]@),
            ),
            None => array_member_spec(j@, key@) is None,
        },
{
    match j {
        Json::Object(members) => {
            let ghost ms = Seq::new(members@.len(), |i: int| (members@[i].0@, members@[i].1@));
            assert(j@->Object_0 =~= ms);
            assert(j@ == JsonView::Object(ms));
            match find_member(members, key) {
                Some(i) => match &members[i].1 {
                    Json::Array(items) => {
                        let ghost its = Seq::new(items@.len(), |k: int| items@[k]@);
                        assert(members@[i as int].1@->Array_0 =~= its);
                        assert(members@[i as int].1@ == JsonView::Array(its));
                        Some(items)
                    },
                    _ => None,
                },
                None => None,
            }
        },
        _ => None,
    }
}

} // verus!
