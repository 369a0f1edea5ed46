//! JSON documents that the engine sends: built as `serde_json::Value`,
//! described in contracts as `JsonDoc`.

use vstd::prelude::*;

verus! {

/// A JSON document as a mathematical value.
pub enum JsonDoc {
    /// `null`.
    Null,
    /// `true` or `false`.
    Bool(bool),
    /// A whole number.
    Number(int),
    /// A string.
    String(Seq<char>),
    /// An array.
    Array(Seq<JsonDoc>),
    /// An object: its members by name.
    Object(Map<Seq<char>, JsonDoc>),
}

/// `serde_json::Value`, a JSON document in memory. Nothing is assumed of
/// its inside; contracts speak of it through `json_doc`.
#[verifier::external_type_specification]
#[verifier::external_body]
pub struct ExJsonValue(serde_json::Value);

/// The document that a `serde_json::Value` holds.
pub uninterp spec fn json_doc(value: serde_json::Value) -> JsonDoc;

/// `serde_json::Value::from` on a string slice: a JSON string with the
/// characters of `text`.
#[verifier::external_body]
pub(crate) fn json_string(text: &str) -> (value: serde_json::Value)
    ensures
        json_doc(value) == JsonDoc::String(text@),
{
    serde_json::Value::from(text)
}

/// `serde_json::Value::from` on an `i32`: the JSON number `number`.
#[verifier::external_body]
pub(crate) fn json_number(number: i32) -> (value: serde_json::Value)
    ensures
        json_doc(value) == JsonDoc::Number(number as int),
{
    serde_json::Value::from(number)
}

/// `serde_json::Value::Object` on `serde_json::Map::new()`: a JSON object
/// without members.
#[verifier::external_body]
pub(crate) fn json_empty_object() -> (value: serde_json::Value)
    ensures
        json_doc(value) == JsonDoc::Object(Map::empty()),
{
    serde_json::Value::Object(serde_json::Map::new())
}

/// Assignment through `serde_json::Value`'s index operator with a string
/// key: on an object, the member `name` is set to `member` and the other
/// members stay. The operator panics on a value that is neither an object
/// nor `null`, which `requires` leaves out.
#[verifier::external_body]
pub(crate) fn json_set_member(object: &mut serde_json::Value, name: &str, member: serde_json::Value)
    requires
        json_doc(*old(object)) is Object,
    ensures
        json_doc(*final(object)) == JsonDoc::Object(
            json_doc(*old(object))->Object_0.insert(name@, json_doc(member)),
        ),
{
    object[name] = member;
}

/// The members of an object whose values are all strings.
pub open spec fn string_members(strings: Map<Seq<char>, Seq<char>>) -> Map<Seq<char>, JsonDoc> {
    strings.map_values(|text: Seq<char>| JsonDoc::String(text))
}

/// An object with the single member `name`.
pub open spec fn single_member(name: Seq<char>, member: JsonDoc) -> JsonDoc {
    JsonDoc::Object(Map::empty().insert(name, member))
}

/// Wraps `member` in an object under `name`.
pub fn json_wrap(name: &str, member: serde_json::Value) -> (value: serde_json::Value)
    ensures
        json_doc(value) == single_member(name@, json_doc(member)),
{
    let mut object = json_empty_object();
    json_set_member(&mut object, name, member);
    object
}

/// The JSON object with one string member for each pair, a later pair
/// replacing an earlier one with the same name.
pub fn json_string_object(pairs: &Vec<(String, String)>) -> (value: serde_json::Value)
    ensures
        json_doc(value) == JsonDoc::Object(
            string_members(crate::labels::pairs_map(crate::labels::pairs_view(pairs@))),
        ),
{
    let mut object = json_empty_object();
    let ghost all = crate::labels::pairs_view(pairs@);
    let mut i: usize = 0;
    proof {
        assert(string_members(crate::labels::pairs_map(all.take(0))) =~= Map::empty());
    }
    while i < pairs.len()
        invariant
            i <= pairs@.len(),
            all == crate::labels::pairs_view(pairs@),
            json_doc(object) == JsonDoc::Object(
                string_members(crate::labels::pairs_map(all.take(i as int))),
            ),
        decreases pairs@.len() - i,
    {
        let member = json_string(pairs[i].1.as_str());
        json_set_member(&mut object, pairs[i].0.as_str(), member);
        proof {
            let before = crate::labels::pairs_map(all.take(i as int));
            assert(all.take(i + 1).drop_last() =~= all.take(i as int));
            assert(all.take(i + 1).last() == all[i as int]);
            assert(string_members(before).insert(all[i as int].0, JsonDoc::String(all[i as int].1))
                =~= string_members(before.insert(all[i as int].0, all[i as int].1)));
        }
        i += 1;
    }
    proof {
        assert(all.take(i as int) =~= all);
    }
    object
}

} // verus!
