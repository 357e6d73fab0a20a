//! JSON values as the trackers send them.
//!
//! A `serde_json::Value` is opaque to the verifier. Its content is described
//! by `json_data`, a tree of plain mathematical values, and every accessor
//! the crate uses is specified over that tree.

use serde_json::Value;
use vstd::prelude::*;
use vstd::string::*;

verus! {

#[verifier::external_type_specification]
#[verifier::external_body]
pub struct ExValue(serde_json::Value);

/// The content of a JSON number, as far as the crate looks at it.
pub enum JsonNumber {
    /// A whole number, from the least `i64` to the greatest `u64`.
    Integer(int),
    /// Any other number.
    Real,
}

/// The content of a JSON value.
pub enum JsonData {
    Null,
    Bool(bool),
    Number(JsonNumber),
    Text(Seq<char>),
    Array(Seq<JsonData>),
    Object(Map<Seq<char>, JsonData>),
}

/// What a `serde_json::Value` holds.
pub uninterp spec fn json_data(v: Value) -> JsonData;

/// The compact JSON text that `to_string` renders for a value.
pub uninterp spec fn json_text(v: Value) -> Seq<char>;

/// The value that `Value::get` finds under a string key.
pub uninterp spec fn member_value(v: Value, key: Seq<char>) -> Option<Value>;

/// The values that `Value::as_array` hands out.
pub uninterp spec fn array_items(v: Value) -> Option<Seq<Value>>;

/// The member `key` of an object; `None` for a missing key and for anything
/// that is not an object.
pub open spec fn member(d: JsonData, key: Seq<char>) -> Option<JsonData> {
    match d {
        JsonData::Object(m) => if m.contains_key(key) {
            Some(m[key])
        } else {
            None
        },
        _ => None,
    }
}

/// The text of a JSON string; `None` for any other value.
pub open spec fn text_of(d: JsonData) -> Option<Seq<char>> {
    match d {
        JsonData::Text(s) => Some(s),
        _ => None,
    }
}

/// The integer of a JSON number that fits `i64`; `None` for any other value.
pub open spec fn i64_of(d: JsonData) -> Option<i64> {
    match d {
        JsonData::Number(JsonNumber::Integer(n)) => if i64::MIN <= n <= i64::MAX {
            Some(n as i64)
        } else {
            None
        },
        _ => None,
    }
}

/// The elements of a JSON array; `None` for any other value.
pub open spec fn items_of(d: JsonData) -> Option<Seq<JsonData>> {
    match d {
        JsonData::Array(items) => Some(items),
        _ => None,
    }
}

/// `Value::get` of serde_json with a string index: a reference to the member
/// `key` when the value is an object that has it, else `None`. The member
/// found holds what the object holds under that key.
#[verifier::external_body]
pub(crate) fn get<'a>(v: &'a Value, key: &str) -> (r: Option<&'a Value>)
    ensures
        r matches Some(found) ==> member_value(*v, key@) == Some(*found) && member(
            json_data(*v),
            key@,
        ) == Some(json_data(*found)),
        r is None ==> member_value(*v, key@) is None && member(json_data(*v), key@) is None,
{
    v.get(key)
}

/// `Value::as_str` of serde_json: the text when the value is a string.
pub assume_specification<'a>[ Value::as_str ](v: &'a Value) -> (r: Option<&'a str>)
    ensures
        r is Some <==> text_of(json_data(*v)) is Some,
        r matches Some(s) ==> text_of(json_data(*v)) == Some(s@),
;

/// `Value::as_i64` of serde_json: the number when the value is an integer
/// within the range of `i64`.
pub assume_specification[ Value::as_i64 ](v: &Value) -> (r: Option<i64>)
    ensures
        r == i64_of(json_data(*v)),
;

/// `Value::as_array` of serde_json: the elements when the value is an array,
/// else `None`. The elements hold what the array holds, in its order.
pub assume_specification<'a>[ Value::as_array ](v: &'a Value) -> (r: Option<&'a Vec<Value>>)
    ensures
        r matches Some(items) ==> array_items(*v) == Some(items@) && items_of(json_data(*v))
            == Some(data_of_all(items@)),
        r is None ==> array_items(*v) is None && items_of(json_data(*v)) is None,
;

/// `Clone` for `serde_json::Value`: the copy is the same value.
pub assume_specification[ <Value as Clone>::clone ](v: &Value) -> (r: Value)
    ensures
        r == *v,
;

/// `to_string` of a `serde_json::Value`: its compact JSON text.
#[verifier::external_body]
pub(crate) fn render(v: &Value) -> (r: String)
    ensures
        r@ == json_text(*v),
{
    v.to_string()
}

/// The members that a list of keyed values makes up. A later entry replaces
/// an earlier one with the same key.
pub open spec fn object_of(members: Seq<(String, Value)>) -> Map<Seq<char>, JsonData>
    decreases members.len(),
{
    if members.len() == 0 {
        Map::empty()
    } else {
        object_of(members.drop_last()).insert(members.last().0@, json_data(members.last().1))
    }
}

/// No two entries of `members` have the same key.
pub open spec fn distinct_keys(members: Seq<(String, Value)>) -> bool {
    forall|i: int, j: int|
        0 <= i < j < members.len() ==> (#[trigger] members[i]).0@ != (#[trigger] members[j]).0@
}

/// The content of each value of a list.
pub open spec fn data_of_all(items: Seq<Value>) -> Seq<JsonData> {
    items.map_values(|item: Value| json_data(item))
}

/// The variant `Value::String` of serde_json.
#[verifier::external_body]
pub(crate) fn string_value(s: String) -> (r: Value)
    ensures
        json_data(r) == JsonData::Text(s@),
{
    Value::String(s)
}

/// The variant `Value::Null` of serde_json.
#[verifier::external_body]
pub(crate) fn null_value() -> (r: Value)
    ensures
        json_data(r) == JsonData::Null,
{
    Value::Null
}

/// `Value::from` of serde_json for an `i64`: the JSON number of that integer.
#[verifier::external_body]
pub(crate) fn integer_value(n: i64) -> (r: Value)
    ensures
        json_data(r) == JsonData::Number(JsonNumber::Integer(n as int)),
{
    Value::from(n)
}

/// The variant `Value::Array` of serde_json.
#[verifier::external_body]
pub(crate) fn array_value(items: Vec<Value>) -> (r: Value)
    ensures
        json_data(r) == JsonData::Array(data_of_all(items@)),
{
    Value::Array(items)
}

/// `Value::Object` of serde_json over a `serde_json::Map` collected from
/// keyed values. With distinct keys, the object has exactly those members.
#[verifier::external_body]
pub(crate) fn object_value(members: Vec<(String, Value)>) -> (r: Value)
    requires
        distinct_keys(members@),
    ensures
        json_data(r) == JsonData::Object(object_of(members@)),
{
    Value::Object(members.into_iter().collect())
}

/// The text of the string member `key`, if the value is an object that has
/// such a member.
pub open spec fn text_member(d: JsonData, key: Seq<char>) -> Option<Seq<char>> {
    match member(d, key) {
        Some(found) => text_of(found),
        None => None,
    }
}

/// The integer member `key` that fits `i64`, if the value is an object that
/// has such a member.
pub open spec fn i64_member(d: JsonData, key: Seq<char>) -> Option<i64> {
    match member(d, key) {
        Some(found) => i64_of(found),
        None => None,
    }
}

/// `text_member`, with `fallback` where there is no such member.
pub open spec fn text_member_or(d: JsonData, key: Seq<char>, fallback: Seq<char>) -> Seq<char> {
    match text_member(d, key) {
        Some(text) => text,
        None => fallback,
    }
}

/// The string member `key` of `v`.
pub fn string_field(v: &Value, key: &str) -> (r: Option<String>)
    ensures
        r.deep_view() == text_member(json_data(*v), key@),
{
    match get(v, key) {
        Some(found) => match found.as_str() {
            Some(text) => Some(text.to_owned()),
            None => None,
        },
        None => None,
    }
}

/// The string member `key` of `v`, or `fallback` where there is none.
pub fn string_field_or(v: &Value, key: &str, fallback: &str) -> (r: String)
    ensures
        r@ == text_member_or(json_data(*v), key@, fallback@),
{
    match string_field(v, key) {
        Some(text) => text,
        None => fallback.to_owned(),
    }
}

/// The integer member `key` of `v`.
pub fn i64_field(v: &Value, key: &str) -> (r: Option<i64>)
    ensures
        r == i64_member(json_data(*v), key@),
{
    match get(v, key) {
        Some(found) => found.as_i64(),
        None => None,
    }
}

/// The content of an optional text: a JSON string, or `null` where there is
/// no text.
pub open spec fn optional_text_data(text: Option<Seq<char>>) -> JsonData {
    match text {
        Some(s) => JsonData::Text(s),
        None => JsonData::Null,
    }
}

/// The JSON string that holds `text`.
pub fn text_value(text: &str) -> (r: Value)
    ensures
        json_data(r) == JsonData::Text(text@),
{
    string_value(text.to_owned())
}

/// The JSON string that holds `text`, or `null` where there is no text.
pub fn optional_text_value(text: Option<&str>) -> (r: Value)
    ensures
        json_data(r) == optional_text_data(text.deep_view()),
{
    match text {
        Some(s) => string_value(s.to_owned()),
        None => null_value(),
    }
}

/// One more entry at the end of a list adds or replaces one member.
pub proof fn lemma_object_push(members: Seq<(String, Value)>, entry: (String, Value))
    ensures
        object_of(members.push(entry)) == object_of(members).insert(
            entry.0@,
            json_data(entry.1),
        ),
        object_of(Seq::<(String, Value)>::empty()) == Map::<Seq<char>, JsonData>::empty(),
{
    assert(members.push(entry).drop_last() =~= members);
}

/// The object with the one member `key`.
pub fn object1(key: &str, value: Value) -> (r: Value)
    ensures
        json_data(r) == JsonData::Object(map![key@ => json_data(value)]),
{
    let mut members: Vec<(String, Value)> = Vec::new();
    members.push((key.to_owned(), value));
    proof {
        lemma_object_push(Seq::empty(), members@[0]);
    }
    object_value(members)
}

/// The object with the two members `key1` and `key2`.
pub(crate) fn object2(key1: &str, value1: Value, key2: &str, value2: Value) -> (r: Value)
    requires
        key1@ != key2@,
    ensures
        json_data(r) == JsonData::Object(
            map![key1@ => json_data(value1), key2@ => json_data(value2)],
        ),
{
    let mut members: Vec<(String, Value)> = Vec::new();
    members.push((key1.to_owned(), value1));
    let ghost one = members@;
    members.push((key2.to_owned(), value2));
    proof {
        lemma_object_push(Seq::empty(), one[0]);
        lemma_object_push(one, members@[1]);
    }
    object_value(members)
}

/// The object with the three members `key1`, `key2` and `key3`.
pub(crate) fn object3(
    key1: &str,
    value1: Value,
    key2: &str,
    value2: Value,
    key3: &str,
    value3: Value,
) -> (r: Value)
    requires
        key1@ != key2@,
        key1@ != key3@,
        key2@ != key3@,
    ensures
        json_data(r) == JsonData::Object(
            map![
                key1@ => json_data(value1),
                key2@ => json_data(value2),
                key3@ => json_data(value3)
            ],
        ),
{
    let mut members: Vec<(String, Value)> = Vec::new();
    members.push((key1.to_owned(), value1));
    let ghost one = members@;
    members.push((key2.to_owned(), value2));
    let ghost two = members@;
    members.push((key3.to_owned(), value3));
    proof {
        lemma_object_push(Seq::empty(), one[0]);
        lemma_object_push(one, two[1]);
        lemma_object_push(two, members@[2]);
    }
    object_value(members)
}

/// The object with the four members `key1` to `key4`.
pub(crate) fn object4(
    key1: &str,
    value1: Value,
    key2: &str,
    value2: Value,
    key3: &str,
    value3: Value,
    key4: &str,
    value4: Value,
) -> (r: Value)
    requires
        key1@ != key2@,
        key1@ != key3@,
        key1@ != key4@,
        key2@ != key3@,
        key2@ != key4@,
        key3@ != key4@,
    ensures
        json_data(r) == JsonData::Object(
            map![
                key1@ => json_data(value1),
                key2@ => json_data(value2),
                key3@ => json_data(value3),
                key4@ => json_data(value4)
            ],
        ),
{
    let mut members: Vec<(String, Value)> = Vec::new();
    members.push((key1.to_owned(), value1));
    let ghost one = members@;
    members.push((key2.to_owned(), value2));
    let ghost two = members@;
    members.push((key3.to_owned(), value3));
    let ghost three = members@;
    members.push((key4.to_owned(), value4));
    proof {
        lemma_object_push(Seq::empty(), one[0]);
        lemma_object_push(one, two[1]);
        lemma_object_push(two, three[2]);
        lemma_object_push(three, members@[3]);
    }
    object_value(members)
}

/// The array with the one element `item`.
pub fn array1(item: Value) -> (r: Value)
    ensures
        json_data(r) == JsonData::Array(seq![json_data(item)]),
{
    let mut items: Vec<Value> = Vec::new();
    items.push(item);
    proof {
        assert(data_of_all(items@) =~= seq![json_data(item)]);
    }
    array_value(items)
}

/// The value under `key` of a value that may be missing.
pub open spec fn descend(v: Option<Value>, key: Seq<char>) -> Option<Value> {
    match v {
        Some(inner) => member_value(inner, key),
        None => None,
    }
}

/// The value found by going down three keys from `v`.
pub open spec fn value_at3(v: Value, key1: Seq<char>, key2: Seq<char>, key3: Seq<char>) -> Option<
    Value,
> {
    descend(descend(member_value(v, key1), key2), key3)
}

/// The value found by going down three keys from `v`.
pub fn get3<'a>(v: &'a Value, key1: &str, key2: &str, key3: &str) -> (r: Option<&'a Value>)
    ensures
        r matches Some(found) ==> value_at3(*v, key1@, key2@, key3@) == Some(*found),
        r is None ==> value_at3(*v, key1@, key2@, key3@) is None,
{
    match get(v, key1) {
        None => None,
        Some(first) => match get(first, key2) {
            None => None,
            Some(second) => get(second, key3),
        },
    }
}

/// The text member `key2` of the member `key1`, if both are there.
pub open spec fn nested_text(d: JsonData, key1: Seq<char>, key2: Seq<char>) -> Option<Seq<char>> {
    match member(d, key1) {
        Some(inner) => text_member(inner, key2),
        None => None,
    }
}

/// The text member `key2` of the member `key1` of `v`.
pub fn nested_string_field(v: &Value, key1: &str, key2: &str) -> (r: Option<String>)
    ensures
        r.deep_view() == nested_text(json_data(*v), key1@, key2@),
{
    match get(v, key1) {
        Some(inner) => string_field(inner, key2),
        None => None,
    }
}

/// `text`, or `fallback` where there is none.
pub fn text_or(text: Option<String>, fallback: &str) -> (r: String)
    ensures
        r@ == (match text.deep_view() {
            Some(s) => s,
            None => fallback@,
        }),
{
    match text {
        Some(s) => s,
        None => fallback.to_owned(),
    }
}

} // verus!
