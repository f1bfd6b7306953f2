//! JSON values as the vendor's responses carry them.

use vstd::prelude::*;
use vstd::string::*;

verus! {

/// A JSON number, kept as it was received: an integer, or a real number
/// given by the bits of its IEEE 754 binary64 representation.
#[derive(Clone, Copy, Debug, PartialEq, Eq)]
pub enum Number {
    /// An integer in the range of `i64`.
    Int(i64),
    /// An integer without a sign; the form of those above `i64::MAX`.
    Unsigned(u64),
    /// A real number; `bits` is its binary64 bit pattern.
    Real { bits: u64 },
}

/// A JSON value.
#[derive(Debug, PartialEq)]
pub enum Json {
    Null,
    Bool(bool),
    Number(Number),
    Text(String),
    Array(Vec<Json>),
    /// The members of an object, in the order in which they are listed.
    /// Where a name occurs more than once, the first occurrence counts.
    Object(Vec<(String, Json)>),
}

/// A JSON value as a mathematical value: texts are character sequences,
/// arrays are sequences of values, and objects are sequences of named
/// values.
pub enum JsonView {
    Null,
    Bool(bool),
    Number(Number),
    Text(Seq<char>),
    Array(Seq<JsonView>),
    Object(Seq<(Seq<char>, JsonView)>),
}

/// The mathematical value of a JSON value.
pub open spec fn json_view(json: Json) -> JsonView
    decreases json,
{
    match json {
        Json::Null => JsonView::Null,
        Json::Bool(flag) => JsonView::Bool(flag),
        Json::Number(number) => JsonView::Number(number),
        Json::Text(text) => JsonView::Text(text@),
        Json::Array(items) => JsonView::Array(
            Seq::new(
                items@.len(),
                |i: int|
                    if 0 <= i < items@.len() {
                        json_view(items@[i])
                    } else {
                        JsonView::Null
                    },
            ),
        ),
        Json::Object(members) => JsonView::Object(
            Seq::new(
                members@.len(),
                |i: int|
                    if 0 <= i < members@.len() {
                        (members@[i].0@, json_view(members@[i].1))
                    } else {
                        (Seq::empty(), JsonView::Null)
                    },
            ),
        ),
    }
}

impl View for Json {
    type V = JsonView;

    open spec fn view(&self) -> JsonView {
        json_view(*self)
    }
}

/// The mathematical values of a list of JSON values.
pub open spec fn items_view(items: Seq<Json>) -> Seq<JsonView> {
    Seq::new(items.len(), |i: int| items[i]@)
}

/// The mathematical values of a list of named JSON values.
pub open spec fn members_view(members: Seq<(String, Json)>) -> Seq<(Seq<char>, JsonView)> {
    Seq::new(members.len(), |i: int| (members[i].0@, members[i].1@))
}

/// The mathematical value of an optional JSON value.
pub open spec fn optional_view(json: Option<Json>) -> Option<JsonView> {
    match json {
        Some(value) => Some(value@),
        None => None,
    }
}

/// The view of an array is the array of the views of its elements.
pub proof fn lemma_array_view(items: Vec<Json>)
    ensures
        Json::Array(items)@ == JsonView::Array(items_view(items@)),
{
    assert(Json::Array(items)@->Array_0 =~= items_view(items@));
}

/// The view of an object is the list of its names with the views of their
/// values.
pub proof fn lemma_object_view(members: Vec<(String, Json)>)
    ensures
        Json::Object(members)@ == JsonView::Object(members_view(members@)),
{
    assert(Json::Object(members)@->Object_0 =~= members_view(members@));
}

/// The value of the first member of `members` named `name`, if any.
pub open spec fn member(members: Seq<(Seq<char>, JsonView)>, name: Seq<char>) -> Option<JsonView>
    decreases members.len(),
{
    if members.len() == 0 {
        None
    } else if members[0].0 == name {
        Some(members[0].1)
    } else {
        member(members.drop_first(), name)
    }
}

/// A member that `member` finds sits at some position of the list, under
/// the name asked for.
pub proof fn lemma_member_is_listed(members: Seq<(Seq<char>, JsonView)>, name: Seq<char>)
    ensures
        member(members, name) matches Some(value) ==> exists|i: int|
            0 <= i < members.len() && #[trigger] members[i] == (name, value),
    decreases members.len(),
{
    if members.len() > 0 && members[0].0 != name {
        let rest = members.drop_first();
        lemma_member_is_listed(rest, name);
        if member(rest, name) is Some {
            let i = choose|i: int|
                0 <= i < rest.len() && #[trigger] rest[i] == (name, member(rest, name)->0);
            assert(members[i + 1] == rest[i]);
        }
    }
}

/// The position of the first member named `name`.
pub fn member_position(members: &Vec<(String, Json)>, name: &str) -> (found: Option<usize>)
    ensures
        match found {
            Some(i) => i < members.len() && members[i as int].0@ == name@ && member(
                members_view(members@),
                name@,
            ) == Some(members[i as int].1@),
            None => member(members_view(members@), name@) is None,
        },
{
    let wanted = String::from_str(name);
    let ghost listed = members_view(members@);
    let mut i: usize = 0;
    assert(listed.skip(0) =~= listed);
    while i < members.len()
        invariant
            i <= members.len(),
            wanted@ == name@,
            listed == members_view(members@),
            member(listed, name@) == member(listed.skip(i as int), name@),
        decreases members.len() - i,
    {
        proof {
            let rest = listed.skip(i as int);
            assert(rest[0] == listed[i as int]);
            assert(rest.drop_first() =~= listed.skip(i + 1));
        }
        if members[i].0 == wanted {
            return Some(i);
        }
        i += 1;
    }
    None
}

/// The value of the first member named `name`, borrowed.
pub fn lookup<'a>(members: &'a Vec<(String, Json)>, name: &str) -> (found: Option<&'a Json>)
    ensures
        match found {
            Some(value) => member(members_view(members@), name@) == Some(value@),
            None => member(members_view(members@), name@) is None,
        },
{
    match member_position(members, name) {
        Some(i) => Some(&members[i].1),
        None => None,
    }
}

/// The value of the first member named `name`, moved out of the list.
pub fn take_member(members: Vec<(String, Json)>, name: &str) -> (found: Option<Json>)
    ensures
        optional_view(found) == member(members_view(members@), name@),
{
    let mut members = members;
    match member_position(&members, name) {
        Some(i) => {
            let entry = members.swap_remove(i);
            Some(entry.1)
        },
        None => None,
    }
}

/// The element at `index`, moved out of the list.
pub fn take_item(items: Vec<Json>, index: usize) -> (found: Option<Json>)
    ensures
        optional_view(found) == if index < items.len() {
            Some(items_view(items@)[index as int])
        } else {
            None
        },
{
    let mut items = items;
    if index < items.len() {
        Some(items.swap_remove(index))
    } else {
        None
    }
}

} // verus!
