//! JSON documents as values of the library, and lookups of their fields.

use vstd::prelude::*;

verus! {

/// A JSON value. Numbers are kept as text; an object keeps its members in order.
#[derive(PartialEq, Eq, Debug)]
pub enum JsonValue {
    Null,
    Bool(bool),
    Number(String),
    Str(String),
    Array(Vec<JsonValue>),
    Object(Vec<(String, JsonValue)>),
}

#[verifier::external_type_specification]
#[verifier::external_body]
pub struct ExJsonError(serde_json::Error);

#[verifier::external_type_specification]
#[verifier::external_body]
pub struct ExJsonDocument(serde_json::Value);

/// What `serde_json` reads from `text`: `None` where `text` is not a JSON document, else the
/// document as a `JsonValue`.
pub uninterp spec fn spec_json_parse(text: Seq<char>) -> Option<JsonValue>;

/// Turns a `serde_json::Value` into the same value of the library, variant for variant
/// (numbers as `serde_json` prints them, object members in the order the map holds them).
#[verifier::external_body]
fn json_value(v: serde_json::Value) -> JsonValue {
    match v {
        serde_json::Value::Null => JsonValue::Null,
        serde_json::Value::Bool(b) => JsonValue::Bool(b),
        serde_json::Value::Number(n) => JsonValue::Number(n.to_string()),
        serde_json::Value::String(s) => JsonValue::Str(s),
        serde_json::Value::Array(a) => JsonValue::Array(a.into_iter().map(json_value).collect()),
        serde_json::Value::Object(o) => JsonValue::Object(o.into_iter().map(|(k, x)| (k, json_value(x))).collect()),
    }
}

/// Calls `serde_json::from_str` to read `text` as a `serde_json::Value`, and turns the value
/// into a `JsonValue` with `json_value`.
/// Claimed: the outcome is an error exactly where `spec_json_parse` has no document, and
/// otherwise the document `spec_json_parse` names.
#[verifier::external_body]
pub fn json_parse(text: &str) -> (r: Result<JsonValue, serde_json::Error>)
    ensures
        match spec_json_parse(text@) {
            None => r is Err,
            Some(v) => r matches Ok(w) && w == v,
        },
{
    match serde_json::from_str::<serde_json::Value>(text) {
        Ok(v) => Ok(json_value(v)),
        Err(e) => Err(e),
    }
}

/// The value of the first member named `key` among `members`.
pub open spec fn spec_member(members: Seq<(String, JsonValue)>, key: Seq<char>) -> Option<JsonValue>
    decreases members.len(),
{
    if members.len() == 0 {
        None
    } else if members[0].0@ == key {
        Some(members[0].1)
    } else {
        spec_member(members.drop_first(), key)
    }
}

/// The field `key` of `v`: `None` where `v` is not an object or has no such member.
pub open spec fn spec_json_field(v: JsonValue, key: Seq<char>) -> Option<JsonValue> {
    match v {
        JsonValue::Object(members) => spec_member(members@, key),
        _ => None,
    }
}

/// A member is found by its key whatever the other members hold: where member `i` is the
/// first with key `key`, the lookup gives its value.
pub proof fn lemma_member_found(members: Seq<(String, JsonValue)>, key: Seq<char>, i: int)
    requires
        0 <= i < members.len(),
        members[i].0@ == key,
        forall|j: int| 0 <= j < i ==> (#[trigger] members[j]).0@ != key,
    ensures
        spec_member(members, key) == Some(members[i].1),
    decreases i,
{
    if i > 0 {
        let rest = members.drop_first();
        assert forall|j: int| 0 <= j < i - 1 implies (#[trigger] rest[j]).0@ != key by {
            assert(rest[j] == members[j + 1]);
        }
        lemma_member_found(rest, key, i - 1);
    }
}

/// A key that no member has is not found.
pub proof fn lemma_member_absent(members: Seq<(String, JsonValue)>, key: Seq<char>)
    requires
        forall|j: int| 0 <= j < members.len() ==> (#[trigger] members[j]).0@ != key,
    ensures
        spec_member(members, key) is None,
    decreases members.len(),
{
    if members.len() > 0 {
        let rest = members.drop_first();
        assert forall|j: int| 0 <= j < rest.len() implies (#[trigger] rest[j]).0@ != key by {
            assert(rest[j] == members[j + 1]);
        }
        lemma_member_absent(rest, key);
    }
}

/// The field `key` of an object is the value of its first member with that key, whatever
/// the other members hold, and is absent where no member has that key.
pub proof fn lemma_json_field_object(members: Vec<(String, JsonValue)>, key: Seq<char>, i: int)
    requires
        0 <= i < members@.len(),
        members@[i].0@ == key,
        forall|j: int| 0 <= j < i ==> (#[trigger] members@[j]).0@ != key,
    ensures
        spec_json_field(JsonValue::Object(members), key) == Some(members@[i].1),
{
    lemma_member_found(members@, key, i);
}

/// The field `key` of `v`, if `v` is an object with such a member.
pub fn json_field<'a>(v: &'a JsonValue, key: &str) -> (r: Option<&'a JsonValue>)
    ensures
        match r {
            Some(x) => spec_json_field(*v, key@) == Some(*x),
            None => spec_json_field(*v, key@) is None,
        },
{
    match v {
        JsonValue::Object(members) => {
            let wanted = key.to_owned();
            let n = members.len();
            assert(members@.skip(0) =~= members@);
            for i in 0..n
                invariant
                    n == members@.len(),
                    wanted@ == key@,
                    spec_json_field(*v, key@) == spec_member(members@, key@),
                    spec_member(members@, key@) == spec_member(members@.skip(i as int), key@),
            {
                assert(members@.skip(i as int).drop_first() =~= members@.skip(i + 1));
                assert(members@.skip(i as int)[0] == members@[i as int]);
                if members[i].0 == wanted {
                    return Some(&members[i].1);
                }
            }
            assert(members@.skip(n as int).len() == 0);
            None
        },
        _ => None,
    }
}

} // verus!
