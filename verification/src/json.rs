//! A JSON value model held as plain data, with a mathematical view.

use vstd::prelude::*;

use crate::text::texts;

verus! {

/// A JSON number as the decoder classified it: a non-negative integer, a
/// negative integer, or any other number kept by its decimal text.
#[derive(Debug)]
pub enum JsonNumber {
    PosInt(u64),
    NegInt(i64),
    Float(String),
}

/// A JSON document.
#[derive(Debug)]
pub enum JsonValue {
    Null,
    Bool(bool),
    Number(JsonNumber),
    Str(String),
    Array(Vec<JsonValue>),
    Object(Vec<(String, JsonValue)>),
}

/// The mathematical form of a JSON number.
pub enum NumberView {
    PosInt(u64),
    NegInt(i64),
    Float(Seq<char>),
}

/// The mathematical form of a JSON document.
pub enum JsonView {
    Null,
    Bool(bool),
    Number(NumberView),
    Str(Seq<char>),
    Array(Seq<JsonView>),
    Object(Seq<(Seq<char>, JsonView)>),
}

pub open spec fn number_view(n: JsonNumber) -> NumberView {
    match n {
        JsonNumber::PosInt(u) => NumberView::PosInt(u),
        JsonNumber::NegInt(i) => NumberView::NegInt(i),
        JsonNumber::Float(s) => NumberView::Float(s@),
    }
}

pub open spec fn json_view(v: JsonValue) -> JsonView
    decreases v,
{
    match v {
        JsonValue::Null => JsonView::Null,
        JsonValue::Bool(b) => JsonView::Bool(b),
        JsonValue::Number(n) => JsonView::Number(number_view(n)),
        JsonValue::Str(s) => JsonView::Str(s@),
        JsonValue::Array(items) => JsonView::Array(
            Seq::new(
                items@.len(),
                |i: int|
                    if 0 <= i < items@.len() {
                        json_view(items@[i])
                    } else {
                        JsonView::Null
                    },
            ),
        ),
        JsonValue::Object(members) => JsonView::Object(
            Seq::new(
                members@.len(),
                |i: int|
                    if 0 <= i < members@.len() {
                        (members@[i].0@, json_view(members@[i].1))
                    } else {
                        (Seq::empty(), JsonView::Null)
                    },
            ),
        ),
    }
}

/// The views of the members of an object.
pub open spec fn members_view(m: Seq<(String, JsonValue)>) -> Seq<(Seq<char>, JsonView)> {
    Seq::new(m.len(), |i: int| (m[i].0@, json_view(m[i].1)))
}

/// The views of the items of an array.
pub open spec fn items_view(v: Seq<JsonValue>) -> Seq<JsonView> {
    Seq::new(v.len(), |i: int| json_view(v[i]))
}

/// The view of an object is built from the views of its members.
pub proof fn lemma_object_view(m: Vec<(String, JsonValue)>)
    ensures
        json_view(JsonValue::Object(m)) == JsonView::Object(members_view(m@)),
{
    assert(json_view(JsonValue::Object(m))->Object_0 =~= members_view(m@));
}

/// The view of an array is built from the views of its items.
pub proof fn lemma_array_view(v: Vec<JsonValue>)
    ensures
        json_view(JsonValue::Array(v)) == JsonView::Array(items_view(v@)),
{
    assert(json_view(JsonValue::Array(v))->Array_0 =~= items_view(v@));
}

/// The value of the first member named `key`, as a JSON object's `get` finds it.
pub open spec fn lookup(members: Seq<(Seq<char>, JsonView)>, key: Seq<char>) -> Option<JsonView>
    decreases members.len(),
{
    if members.len() == 0 {
        None
    } else if members[0].0 == key {
        Some(members[0].1)
    } else {
        lookup(members.drop_first(), key)
    }
}

/// The member `key` of `v`, when `v` is an object that has one.
pub open spec fn field(v: JsonView, key: Seq<char>) -> Option<JsonView> {
    match v {
        JsonView::Object(m) => lookup(m, key),
        _ => None,
    }
}

/// The text of `v`, when `v` is a string.
pub open spec fn text_of(v: Option<JsonView>) -> Option<Seq<char>> {
    match v {
        Some(JsonView::Str(s)) => Some(s),
        _ => None,
    }
}

/// The view of an optional reference to a value.
pub open spec fn opt_view(r: Option<&JsonValue>) -> Option<JsonView> {
    match r {
        Some(v) => Some(v@),
        None => None,
    }
}

/// The JSON form of a 64-bit integer: non-negative values are unsigned.
pub open spec fn int_view(i: i64) -> JsonView {
    if i >= 0 {
        JsonView::Number(NumberView::PosInt(i as u64))
    } else {
        JsonView::Number(NumberView::NegInt(i))
    }
}

/// The JSON form of an optional text: the text, or `null`.
pub open spec fn opt_text_view(o: Option<Seq<char>>) -> JsonView {
    match o {
        Some(s) => JsonView::Str(s),
        None => JsonView::Null,
    }
}

/// The view of an optional string.
pub open spec fn opt_string_view(o: Option<String>) -> Option<Seq<char>> {
    match o {
        Some(s) => Some(s@),
        None => None,
    }
}

/// The JSON array of the given texts.
pub open spec fn text_array_view(items: Seq<Seq<char>>) -> JsonView {
    JsonView::Array(Seq::new(items.len(), |i: int| JsonView::Str(items[i])))
}

/// Finds the member `key` of an object.
pub fn get_member<'a>(members: &'a Vec<(String, JsonValue)>, key: &str) -> (r: Option<&'a JsonValue>)
    ensures
        opt_view(r) == lookup(members_view(members@), key@),
{
    let ghost all = members_view(members@);
    let key_owned = key.to_owned();
    let mut i: usize = 0;
    assert(all.skip(0) =~= all);
    while i < members.len()
        invariant
            i <= members.len(),
            all == members_view(members@),
            key_owned@ == key@,
            lookup(all, key@) == lookup(all.skip(i as int), key@),
        decreases members.len() - i,
    {
        assert(all.skip(i as int)[0] == all[i as int]);
        assert(all.skip(i as int).drop_first() =~= all.skip(i + 1));
        if members[i].0 == key_owned {
            return Some(&members[i].1);
        }
        i = i + 1;
    }
    assert(all.skip(i as int).len() == 0);
    None
}

/// Finds the member `key` of `v`, when `v` is an object.
pub fn get_field<'a>(v: &'a JsonValue, key: &str) -> (r: Option<&'a JsonValue>)
    ensures
        opt_view(r) == field(v@, key@),
{
    match v {
        JsonValue::Object(m) => {
            proof {
                lemma_object_view(*m);
            }
            get_member(m, key)
        },
        _ => None,
    }
}

/// A copy of a JSON value.
pub fn copy_json(v: &JsonValue) -> (r: JsonValue)
    ensures
        r@ == v@,
    decreases v,
{
    match v {
        JsonValue::Null => JsonValue::Null,
        JsonValue::Bool(b) => JsonValue::Bool(*b),
        JsonValue::Number(n) => JsonValue::Number(
            match n {
                JsonNumber::PosInt(u) => JsonNumber::PosInt(*u),
                JsonNumber::NegInt(i) => JsonNumber::NegInt(*i),
                JsonNumber::Float(t) => JsonNumber::Float(t.clone()),
            },
        ),
        JsonValue::Str(s) => JsonValue::Str(s.clone()),
        JsonValue::Array(items) => {
            let mut out: Vec<JsonValue> = Vec::new();
            let mut i: usize = 0;
            while i < items.len()
                invariant
                    i <= items.len(),
                    out@.len() == i,
                    *v is Array && (*v)->Array_0 == *items,
                    forall|j: int| 0 <= j < i ==> json_view(#[trigger] out@[j]) == json_view(items@[j]),
                decreases items.len() - i,
            {
                assert(decreases_to!(items@ => items@[i as int]));
                assert(decreases_to!(*items => items@));
                assert(decreases_to!(*v => (*v)->Array_0));
                let c = copy_json(&items[i]);
                out.push(c);
                i = i + 1;
            }
            proof {
                lemma_array_view(*items);
                lemma_array_view(out);
                assert(items_view(out@) =~= items_view(items@));
            }
            JsonValue::Array(out)
        },
        JsonValue::Object(members) => {
            let mut out: Vec<(String, JsonValue)> = Vec::new();
            let mut i: usize = 0;
            while i < members.len()
                invariant
                    i <= members.len(),
                    out@.len() == i,
                    *v is Object && (*v)->Object_0 == *members,
                    forall|j: int|
                        0 <= j < i ==> (#[trigger] out@[j]).0@ == members@[j].0@ && json_view(
                            out@[j].1,
                        ) == json_view(members@[j].1),
                decreases members.len() - i,
            {
                assert(decreases_to!(members@[i as int] => members@[i as int].1));
                assert(decreases_to!(members@ => members@[i as int]));
                assert(decreases_to!(*members => members@));
                assert(decreases_to!(*v => (*v)->Object_0));
                let c = copy_json(&members[i].1);
                out.push((members[i].0.clone(), c));
                i = i + 1;
            }
            proof {
                lemma_object_view(*members);
                lemma_object_view(out);
                assert(members_view(out@) =~= members_view(members@));
            }
            JsonValue::Object(out)
        },
    }
}

/// A JSON string holding `s`.
pub fn text_value(s: &str) -> (r: JsonValue)
    ensures
        r@ == JsonView::Str(s@),
{
    JsonValue::Str(s.to_owned())
}

/// The JSON form of a 64-bit integer.
pub fn int_value(i: i64) -> (r: JsonValue)
    ensures
        r@ == int_view(i),
{
    if i >= 0 {
        JsonValue::Number(JsonNumber::PosInt(i as u64))
    } else {
        JsonValue::Number(JsonNumber::NegInt(i))
    }
}

/// The JSON form of an optional text.
pub fn opt_text_value(o: &Option<String>) -> (r: JsonValue)
    ensures
        r@ == opt_text_view(opt_string_view(*o)),
{
    match o {
        Some(s) => JsonValue::Str(s.clone()),
        None => JsonValue::Null,
    }
}

/// A JSON array of texts.
pub fn text_array_value(items: &Vec<String>) -> (r: JsonValue)
    ensures
        r@ == text_array_view(texts(items@)),
{
    let mut out: Vec<JsonValue> = Vec::new();
    let mut i: usize = 0;
    while i < items.len()
        invariant
            i <= items.len(),
            out@.len() == i,
            forall|j: int| 0 <= j < i ==> json_view(#[trigger] out@[j]) == JsonView::Str(items@[j]@),
        decreases items.len() - i,
    {
        out.push(JsonValue::Str(items[i].clone()));
        i = i + 1;
    }
    proof {
        lemma_array_view(out);
        assert(items_view(out@) =~= text_array_view(texts(items@))->Array_0);
    }
    JsonValue::Array(out)
}

/// Appends the member `key: value` to an object under construction.
pub fn push_member(members: &mut Vec<(String, JsonValue)>, key: &str, value: JsonValue)
    ensures
        members_view(final(members)@) == members_view(old(members)@).push((key@, value@)),
{
    members.push((key.to_owned(), value));
    assert(members_view(final(members)@) =~= members_view(old(members)@).push((key@, value@)));
}

impl View for JsonValue {
    type V = JsonView;

    open spec fn view(&self) -> JsonView {
        json_view(*self)
    }
}


/// A JSON object with the given members.
pub fn object_value(members: Vec<(String, JsonValue)>) -> (r: JsonValue)
    ensures
        r@ == JsonView::Object(members_view(members@)),
{
    proof {
        lemma_object_view(members);
    }
    JsonValue::Object(members)
}

/// A JSON array with the given items.
pub fn array_value(items: Vec<JsonValue>) -> (r: JsonValue)
    ensures
        r@ == JsonView::Array(items_view(items@)),
{
    proof {
        lemma_array_view(items);
    }
    JsonValue::Array(items)
}

} // verus!
