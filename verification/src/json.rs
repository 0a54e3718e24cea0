//! JSON values.
use serde_json::Error as JsonError;
use vstd::prelude::*;

use crate::text;

verus! {

/// A JSON value of the JSON library.
#[verifier::external_type_specification]
#[verifier::external_body]
pub struct ExValue(serde_json::Value);

/// What a JSON value holds. A number is held as the text that it is written with.
#[verifier::ext_equal]
pub enum Json {
    Null,
    Bool(bool),
    Number(Seq<char>),
    Text(Seq<char>),
    List(Seq<Json>),
    Object(Map<Seq<char>, Json>),
}

/// What a `serde_json::Value` holds.
pub uninterp spec fn json_view(v: serde_json::Value) -> Json;

/// What `serde_json::to_string` writes of a value.
pub uninterp spec fn json_text(j: Json) -> Seq<char>;

/// What the values of a list hold.
pub open spec fn json_views(v: Seq<serde_json::Value>) -> Seq<Json> {
    Seq::new(v.len(), |i: int| json_view(v[i]))
}

/// A text, or null where there is none.
pub open spec fn text_or_null(o: Option<Seq<char>>) -> Json {
    match o {
        Some(s) => Json::Text(s),
        None => Json::Null,
    }
}

/// A list of texts.
pub open spec fn text_list(v: Seq<Seq<char>>) -> Json {
    Json::List(Seq::new(v.len(), |i: int| Json::Text(v[i])))
}

/// The member of an object under a key.
pub open spec fn member(j: Json, key: Seq<char>) -> Option<Json> {
    match j {
        Json::Object(m) => if m.dom().contains(key) {
            Some(m[key])
        } else {
            None
        },
        _ => None,
    }
}

/// The text that a value is.
pub open spec fn as_text(j: Json) -> Option<Seq<char>> {
    match j {
        Json::Text(s) => Some(s),
        _ => None,
    }
}

/// The 64-bit integer that a value is.
pub open spec fn as_integer(j: Json) -> Option<i64> {
    match j {
        Json::Number(s) => match text::parsed_i64(s) {
            Some(n) => if text::decimal_int(n as int) == s {
                Some(n)
            } else {
                None
            },
            None => None,
        },
        _ => None,
    }
}

/// The texts that a value is a list of.
pub open spec fn as_text_list(j: Json) -> Option<Seq<Seq<char>>> {
    match j {
        Json::List(v) => if forall|i: int| 0 <= i < v.len() ==> #[trigger] v[i] is Text {
            Some(Seq::new(v.len(), |i: int| v[i]->Text_0))
        } else {
            None
        },
        _ => None,
    }
}

/// The text of a member that must be there.
pub open spec fn text_member(j: Json, key: Seq<char>) -> Option<Seq<char>> {
    match member(j, key) {
        Some(v) => as_text(v),
        None => None,
    }
}

/// The text of a member that may be missing or null. `None` if it is something else.
pub open spec fn opt_text_member(j: Json, key: Seq<char>) -> Option<Option<Seq<char>>> {
    match member(j, key) {
        Some(Json::Text(s)) => Some(Some(s)),
        Some(Json::Null) | None => Some(None),
        _ => None,
    }
}

/// The integer of a member that must be there.
pub open spec fn integer_member(j: Json, key: Seq<char>) -> Option<i64> {
    match member(j, key) {
        Some(v) => as_integer(v),
        None => None,
    }
}

/// The list of texts of a member that must be there.
pub open spec fn text_list_member(j: Json, key: Seq<char>) -> Option<Seq<Seq<char>>> {
    match member(j, key) {
        Some(v) => as_text_list(v),
        None => None,
    }
}

/// An integer is read back from the number that is written of it.
pub proof fn as_integer_of_number(n: i64)
    ensures
        as_integer(Json::Number(text::decimal_int(n as int))) == Some(n),
{
    text::parsed_i64_of_decimal(n);
}

/// The texts of a list are read back from the list that is written of them.
pub proof fn as_text_list_of_texts(v: Seq<Seq<char>>)
    ensures
        as_text_list(text_list(v)) == Some(v),
{
    assert(as_text_list(text_list(v))->0 =~= v);
}

/// Makes `Value::Null`.
#[verifier::external_body]
pub(crate) fn null() -> (res: serde_json::Value)
    ensures
        json_view(res) == Json::Null,
{
    serde_json::Value::Null
}

/// Makes a `Value::String`.
#[verifier::external_body]
pub(crate) fn string(s: &str) -> (res: serde_json::Value)
    ensures
        json_view(res) == Json::Text(s@),
{
    serde_json::Value::String(s.to_owned())
}

/// Calls `Value::from` for an integer: a number written with its decimal digits.
#[verifier::external_body]
pub(crate) fn integer(n: i64) -> (res: serde_json::Value)
    ensures
        json_view(res) == Json::Number(text::decimal_int(n as int)),
{
    serde_json::Value::from(n)
}

/// Makes a `Value::Array`.
#[verifier::external_body]
pub(crate) fn list(v: Vec<serde_json::Value>) -> (res: serde_json::Value)
    ensures
        json_view(res) == Json::List(json_views(v@)),
{
    serde_json::Value::Array(v)
}

/// Makes a `Value::Object` without members.
#[verifier::external_body]
pub(crate) fn object() -> (res: serde_json::Value)
    ensures
        json_view(res) == Json::Object(Map::empty()),
{
    serde_json::Value::Object(serde_json::Map::new())
}

/// Assigns to `value[key]`, through the `IndexMut` of `Value`: on an object it adds the
/// member, or replaces the one under that key.
#[verifier::external_body]
pub(crate) fn set(object: &mut serde_json::Value, key: &str, value: serde_json::Value)
    requires
        json_view(*old(object)) is Object,
    ensures
        json_view(*final(object)) == Json::Object(
            json_view(*old(object))->Object_0.insert(key@, json_view(value)),
        ),
{
    object[key] = value;
}

/// Calls `Value::get` with a key: the member of an object, nothing for another value.
#[verifier::external_body]
pub(crate) fn get<'a>(v: &'a serde_json::Value, key: &str) -> (res: Option<&'a serde_json::Value>)
    ensures
        match res {
            Some(w) => member(json_view(*v), key@) == Some(json_view(*w)),
            None => member(json_view(*v), key@) is None,
        },
{
    v.get(key)
}

/// Calls `Value::is_null`.
#[verifier::external_body]
pub(crate) fn is_null(v: &serde_json::Value) -> (res: bool)
    ensures
        res == (json_view(*v) is Null),
{
    v.is_null()
}

/// Calls `Value::as_str`.
#[verifier::external_body]
pub(crate) fn as_str(v: &serde_json::Value) -> (res: Option<&str>)
    ensures
        text::opt_str(res) == as_text(json_view(*v)),
{
    v.as_str()
}

/// Calls `Value::as_i64`, which gives the integer of a number that is written as a whole
/// number within range.
#[verifier::external_body]
pub(crate) fn as_i64(v: &serde_json::Value) -> (res: Option<i64>)
    ensures
        res == as_integer(json_view(*v)),
{
    v.as_i64()
}

/// Calls `Value::as_array`.
#[verifier::external_body]
pub(crate) fn as_array(v: &serde_json::Value) -> (res: Option<&Vec<serde_json::Value>>)
    ensures
        match res {
            Some(items) => json_view(*v) == Json::List(json_views(items@)),
            None => !(json_view(*v) is List),
        },
{
    v.as_array()
}

/// Calls `serde_json::to_string` on a value. It succeeds on every value, and what it writes
/// depends on what the value holds alone, the members of an object in the order of their keys.
#[verifier::external_body]
pub(crate) fn to_string(v: &serde_json::Value) -> (res: Result<String, JsonError>)
    ensures
        match res {
            Ok(s) => s@ == json_text(json_view(*v)),
            Err(_) => false,
        },
{
    serde_json::to_string(v)
}

/// A text, or null where there is none.
pub(crate) fn string_or_null(o: Option<&str>) -> (res: serde_json::Value)
    ensures
        json_view(res) == text_or_null(text::opt_str(o)),
{
    match o {
        Some(s) => string(s),
        None => null(),
    }
}

/// A list of texts.
pub(crate) fn string_list(v: &[String]) -> (res: serde_json::Value)
    ensures
        json_view(res) == text_list(text::texts(v@)),
{
    let mut items: Vec<serde_json::Value> = Vec::new();
    let mut i: usize = 0;
    while i < v.len()
        invariant
            i <= v.len(),
            items.len() == i,
            forall|j: int| 0 <= j < i ==> json_view(#[trigger] items@[j]) == Json::Text(v@[j]@),
        decreases v.len() - i,
    {
        items.push(string(v[i].as_str()));
        i += 1;
    }
    proof {
        let expected = Seq::new(
            text::texts(v@).len(),
            |i: int| Json::Text(text::texts(v@)[i]),
        );
        assert(json_views(items@) =~= expected);
    }
    list(items)
}

/// Reads the text of a member that must be there.
pub(crate) fn read_text(v: &serde_json::Value, key: &str) -> (res: Option<String>)
    ensures
        text::opt_text(res) == text_member(json_view(*v), key@),
{
    match get(v, key) {
        Some(w) => text::own_opt(as_str(w)),
        None => None,
    }
}

/// Reads the text of a member that may be missing or null.
pub(crate) fn read_opt_text(v: &serde_json::Value, key: &str) -> (res: Option<Option<String>>)
    ensures
        match res {
            Some(o) => opt_text_member(json_view(*v), key@) == Some(text::opt_text(o)),
            None => opt_text_member(json_view(*v), key@) is None,
        },
{
    match get(v, key) {
        Some(w) => if is_null(w) {
            Some(None)
        } else {
            match as_str(w) {
                Some(s) => Some(Some(s.to_owned())),
                None => None,
            }
        },
        None => Some(None),
    }
}

/// Reads the integer of a member that must be there.
pub(crate) fn read_integer(v: &serde_json::Value, key: &str) -> (res: Option<i64>)
    ensures
        res == integer_member(json_view(*v), key@),
{
    match get(v, key) {
        Some(w) => as_i64(w),
        None => None,
    }
}

/// Reads the list of texts of a member that must be there.
pub(crate) fn read_text_list(v: &serde_json::Value, key: &str) -> (res: Option<Vec<String>>)
    ensures
        match res {
            Some(list) => text_list_member(json_view(*v), key@) == Some(text::texts(list@)),
            None => text_list_member(json_view(*v), key@) is None,
        },
{
    let w = match get(v, key) {
        Some(w) => w,
        None => {
            return None;
        },
    };
    let items = match as_array(w) {
        Some(items) => items,
        None => {
            return None;
        },
    };
    let ghost held = json_views(items@);
    let mut res: Vec<String> = Vec::new();
    let mut i: usize = 0;
    while i < items.len()
        invariant
            held == json_views(items@),
            json_view(*w) == Json::List(held),
            member(json_view(*v), key@) == Some(json_view(*w)),
            i <= items.len(),
            res.len() == i,
            forall|j: int| 0 <= j < i ==> #[trigger] held[j] == Json::Text(res@[j]@),
        decreases items.len() - i,
    {
        match as_str(&items[i]) {
            Some(s) => {
                assert(held[i as int] == Json::Text(s@));
                res.push(s.to_owned());
            },
            None => {
                assert(!(held[i as int] is Text));
                return None;
            },
        }
        i += 1;
    }
    assert(text::texts(res@) =~= Seq::new(held.len(), |i: int| held[i]->Text_0));
    Some(res)
}

} // verus!
