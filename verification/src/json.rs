//! JSON documents. They are `serde_json` values throughout; this module
//! says what such a value holds and gives each operation that the crate uses
//! on one a contract.
//!
//! The functions on documents are not proved: each is one call into
//! `serde_json`, and its contract is what the source of `serde_json` shows of
//! that call. What the crate builds on them, the wire schema above all, is
//! proved from the contracts.

use vstd::prelude::*;

verus! {

/// `serde_json::Number`: a JSON number, integer or floating point. Opaque.
#[verifier::external_type_specification]
#[verifier::external_body]
pub struct ExNumber(serde_json::Number);

/// `serde_json::Value`: a JSON document. What one holds is `json_of`.
#[verifier::external_type_specification]
#[verifier::external_body]
pub struct ExValue(serde_json::Value);

/// `Clone` for `serde_json::Number`, which is derived: the copy is the number.
pub assume_specification[ <serde_json::Number as Clone>::clone ](n: &serde_json::Number) -> (copy: serde_json::Number)
    ensures
        copy == *n,
;

/// What a JSON document holds. An object is the map from the names of its
/// members to their values: a `serde_json` object has one member of a name.
pub enum Json {
    Null,
    Bool(bool),
    Number(serde_json::Number),
    String(Seq<char>),
    Array(Seq<Json>),
    Object(Map<Seq<char>, Json>),
}

/// What a `serde_json::Value` holds.
pub uninterp spec fn json_of(value: serde_json::Value) -> Json;

/// The integer that a number is, where it is one that fits `i64`: what
/// `serde_json::Number::as_i64` returns for it.
pub uninterp spec fn number_i64(n: serde_json::Number) -> Option<i64>;

/// What `serde_json::to_string` returns for a document: the text that it
/// prints, or `None` where it gives an error instead.
pub uninterp spec fn json_text(tree: Json) -> Option<Seq<char>>;

/// The document that `serde_json::from_str` reads from a text, where the
/// text is JSON.
pub uninterp spec fn json_parsed(text: Seq<char>) -> Option<Json>;

/// The member of the given name of an object; `None` for anything that is
/// not an object.
pub open spec fn field(tree: Json, name: Seq<char>) -> Option<Json> {
    match tree {
        Json::Object(members) => if members.contains_key(name) {
            Some(members[name])
        } else {
            None
        },
        _ => None,
    }
}

/// Whether a document has at most `depth` levels of arrays and objects.
pub open spec fn within_depth(tree: Json, depth: nat) -> bool
    decreases depth,
{
    match tree {
        Json::Array(items) => depth > 0 && forall|i: int|
            0 <= i < items.len() ==> within_depth(#[trigger] items[i], (depth - 1) as nat),
        Json::Object(members) => depth > 0 && forall|name: Seq<char>|
            members.contains_key(name) ==> within_depth(#[trigger] members[name], (depth - 1) as nat),
        _ => true,
    }
}

/// The depth up to which this crate prints documents. The printer descends
/// once for every level; the bound keeps it well within its stack.
pub const MAX_PRINT_DEPTH: usize = 32;

/// The integer that a document is, where it is a number that is one.
pub open spec fn integer(tree: Json) -> Option<i64> {
    match tree {
        Json::Number(n) => number_i64(n),
        _ => None,
    }
}

/// What each of a list of documents holds.
pub open spec fn trees_of(values: Seq<serde_json::Value>) -> Seq<Json> {
    values.map_values(|v: serde_json::Value| json_of(v))
}

/// No two of the named values have the same name.
pub open spec fn distinct_names(members: Seq<(String, serde_json::Value)>) -> bool {
    forall|i: int, j: int| 0 <= i < j < members.len() ==> members[i].0@ != members[j].0@
}

/// The object of a list of named values.
pub open spec fn members_map(members: Seq<(String, serde_json::Value)>) -> Map<Seq<char>, Json>
    decreases members.len(),
{
    if members.len() == 0 {
        Map::empty()
    } else {
        members_map(members.drop_last()).insert(members.last().0@, json_of(members.last().1))
    }
}

/// An object of named values with distinct names has exactly their names,
/// and under each name the value that came with it.
pub proof fn lemma_members_map(members: Seq<(String, serde_json::Value)>)
    requires
        distinct_names(members),
    ensures
        forall|k: int|
            0 <= k < members.len() ==> members_map(members).contains_key(#[trigger] members[k].0@)
                && members_map(members)[members[k].0@] == json_of(members[k].1),
        forall|name: Seq<char>| #[trigger]
            members_map(members).contains_key(name) ==> exists|k: int|
                0 <= k < members.len() && #[trigger] members[k].0@ == name,
    decreases members.len(),
{
    if members.len() > 0 {
        let front = members.drop_last();
        let last = members.last();
        lemma_members_map(front);
        assert forall|k: int| 0 <= k < members.len() implies members_map(members).contains_key(
            #[trigger] members[k].0@,
        ) && members_map(members)[members[k].0@] == json_of(members[k].1) by {
            if k < members.len() - 1 {
                assert(front[k] == members[k]);
                assert(members[k].0@ != last.0@);
            }
        }
        assert forall|name: Seq<char>| #[trigger]
            members_map(members).contains_key(name) implies exists|k: int|
            0 <= k < members.len() && #[trigger] members[k].0@ == name by {
            if name == last.0@ {
                assert(members[members.len() - 1].0@ == name);
            } else {
                assert(members_map(front).contains_key(name));
                let k = choose|k: int| 0 <= k < front.len() && #[trigger] front[k].0@ == name;
                assert(members[k].0@ == name);
            }
        }
    }
}

/// Adds a named value at the end of a list of members.
pub(crate) fn put(members: &mut Vec<(String, serde_json::Value)>, name: &str, value: serde_json::Value)
    ensures
        final(members)@.len() == old(members)@.len() + 1,
        forall|k: int| 0 <= k < old(members)@.len() ==> final(members)@[k] == old(members)@[k],
        final(members)@[old(members)@.len() as int].0@ == name@,
        final(members)@[old(members)@.len() as int].1 == value,
{
    members.push((name.to_owned(), value));
}

/// Whether two texts are equal, by `==` on `str`, which compares them
/// character by character.
#[verifier::external_body]
pub(crate) fn same_text(a: &str, b: &str) -> (same: bool)
    ensures
        same == (a@ == b@),
{
    a == b
}

/// The null document, `serde_json::Value::Null`.
#[verifier::external_body]
pub(crate) fn value_null() -> (value: serde_json::Value)
    ensures
        json_of(value) == Json::Null,
{
    serde_json::Value::Null
}

/// The document of a truth value, `serde_json::Value::Bool`.
#[verifier::external_body]
pub(crate) fn value_bool(b: bool) -> (value: serde_json::Value)
    ensures
        json_of(value) == Json::Bool(b),
{
    serde_json::Value::Bool(b)
}

/// The document of a text, `serde_json::Value::String`.
#[verifier::external_body]
pub(crate) fn value_string(text: String) -> (value: serde_json::Value)
    ensures
        json_of(value) == Json::String(text@),
{
    serde_json::Value::String(text)
}

/// The document of a number, `serde_json::Value::Number`.
#[verifier::external_body]
pub(crate) fn value_number(n: serde_json::Number) -> (value: serde_json::Value)
    ensures
        json_of(value) == Json::Number(n),
{
    serde_json::Value::Number(n)
}

/// The document of an integer, by `serde_json::Value::from` for `i64`: a
/// number that `as_i64` reads back as this integer.
#[verifier::external_body]
pub(crate) fn value_from_i64(i: i64) -> (value: serde_json::Value)
    ensures
        json_of(value) is Number,
        integer(json_of(value)) == Some(i),
{
    serde_json::Value::from(i)
}

/// The array of the given documents, in order, `serde_json::Value::Array`.
#[verifier::external_body]
pub(crate) fn value_array(items: Vec<serde_json::Value>) -> (value: serde_json::Value)
    ensures
        json_of(value) == Json::Array(trees_of(items@)),
{
    serde_json::Value::Array(items)
}

/// The object of the given members, through `FromIterator` for
/// `serde_json::Map`. The names must differ: which of two members of one
/// name an object keeps is not documented.
#[verifier::external_body]
pub(crate) fn value_object(members: Vec<(String, serde_json::Value)>) -> (value: serde_json::Value)
    requires
        distinct_names(members@),
    ensures
        json_of(value) == Json::Object(members_map(members@)),
{
    serde_json::Value::Object(serde_json::Map::from_iter(members))
}

/// `serde_json::Value::get` with a name: the member of that name, if the
/// document is an object that has one.
#[verifier::external_body]
pub(crate) fn value_get<'a>(value: &'a serde_json::Value, name: &str) -> (found: Option<
    &'a serde_json::Value,
>)
    ensures
        match found {
            Some(v) => field(json_of(*value), name@) == Some(json_of(*v)),
            None => field(json_of(*value), name@) is None,
        },
{
    value.get(name)
}

/// `serde_json::Value::as_str`: the text, if the document is a string.
#[verifier::external_body]
pub(crate) fn value_as_str(value: &serde_json::Value) -> (text: Option<&str>)
    ensures
        match text {
            Some(s) => json_of(*value) == Json::String(s@),
            None => !(json_of(*value) is String),
        },
{
    value.as_str()
}

/// `serde_json::Value::as_i64`: the integer, if the document is a number
/// that is an integer fitting `i64`.
#[verifier::external_body]
pub(crate) fn value_as_i64(value: &serde_json::Value) -> (i: Option<i64>)
    ensures
        i == match json_of(*value) {
            Json::Number(n) => number_i64(n),
            _ => None,
        },
{
    value.as_i64()
}

/// `serde_json::Value::as_number`: the number, if the document is one.
#[verifier::external_body]
pub(crate) fn value_as_number(value: &serde_json::Value) -> (n: Option<&serde_json::Number>)
    ensures
        match n {
            Some(n) => json_of(*value) == Json::Number(*n),
            None => !(json_of(*value) is Number),
        },
{
    value.as_number()
}

/// `serde_json::Value::as_array`: the elements, if the document is an
/// array.
#[verifier::external_body]
pub(crate) fn value_as_array(value: &serde_json::Value) -> (items: Option<&Vec<serde_json::Value>>)
    ensures
        match items {
            Some(list) => json_of(*value) == Json::Array(trees_of(list@)),
            None => !(json_of(*value) is Array),
        },
{
    value.as_array()
}

/// `serde_json::Value::is_null`.
#[verifier::external_body]
pub(crate) fn value_is_null(value: &serde_json::Value) -> (null: bool)
    ensures
        null == (json_of(*value) is Null),
{
    value.is_null()
}

/// `serde_json::to_string` on a document. Whether there is a text, and
/// which, is a function of what the document holds: the printer writes what
/// it finds, an object's members in the order of their names, and reads
/// nothing else. That there always is a text is not claimed. The printer
/// descends once for every level of the document, hence the bound.
#[verifier::external_body]
pub(crate) fn value_to_text(value: &serde_json::Value) -> (text: Option<String>)
    requires
        within_depth(json_of(*value), MAX_PRINT_DEPTH as nat),
    ensures
        match text {
            Some(t) => json_text(json_of(*value)) == Some(t@),
            None => json_text(json_of(*value)) is None,
        },
{
    serde_json::to_string(value).ok()
}

/// `serde_json::from_str` to a document. Whether a text is JSON, and what
/// the document holds, is a function of the text.
#[verifier::external_body]
pub(crate) fn value_from_text(text: &str) -> (value: Option<serde_json::Value>)
    ensures
        match value {
            Some(v) => json_parsed(text@) == Some(json_of(v)),
            None => json_parsed(text@) is None,
        },
{
    serde_json::from_str::<serde_json::Value>(text).ok()
}

} // verus!
