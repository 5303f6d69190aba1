//! JSON as `serde_json` holds it: values, errors, objects, and merging.

use vstd::prelude::*;

verus! {

/// A JSON document held as `serde_json` represents it; opaque here.
#[verifier::external_type_specification]
#[verifier::external_body]
pub struct ExJsonValue(serde_json::Value);

/// An error reported by `serde_json`; opaque here.
#[verifier::external_type_specification]
#[verifier::external_body]
pub struct ExJsonError(serde_json::Error);

/// What `serde_json` reads from `text`: the JSON value, or the error with
/// which it rejects the text. Both depend on the text alone.
pub uninterp spec fn parsed_json(text: Seq<char>) -> Result<serde_json::Value, serde_json::Error>;

/// Parses `text` as a JSON value.
///
/// Trusted: calls `serde_json::from_str::<serde_json::Value>`, a deterministic
/// parse of its argument that fails with an error (it does not panic) on text
/// that is not JSON or nests deeper than its recursion limit. Value and
/// error (kind, line and column) are functions of the text; the contract
/// says the result is `parsed_json` of the text.
#[verifier::external_body]
pub(crate) fn parse_json_value(text: &str) -> (res: Result<serde_json::Value, serde_json::Error>)
    ensures
        res == parsed_json(text@),
{
    serde_json::from_str(text)
}

/// A JSON object as `serde_json` holds it; opaque here.
#[verifier::external_type_specification]
#[verifier::external_body]
#[verifier::reject_recursive_types(K)]
#[verifier::reject_recursive_types(V)]
pub struct ExJsonMap<K, V>(serde_json::Map<K, V>);

/// A JSON object, by field name.
pub type JsonObject = serde_json::Map<String, serde_json::Value>;

/// The object that a JSON value is, or `None` when it is not an object.
pub uninterp spec fn json_object_of(v: serde_json::Value) -> Option<
    serde_json::Map<String, serde_json::Value>,
>;

/// What a JSON object holds: its values by field name.
pub uninterp spec fn json_entries(m: serde_json::Map<String, serde_json::Value>) -> Map<
    Seq<char>,
    serde_json::Value,
>;

/// The fields that a list of entries gives, a later entry replacing an
/// earlier one of the same name.
pub open spec fn entries_map(items: Seq<(String, serde_json::Value)>) -> Map<
    Seq<char>,
    serde_json::Value,
>
    decreases items.len(),
{
    if items.len() == 0 {
        Map::empty()
    } else {
        entries_map(items.drop_last()).insert(items.last().0@, items.last().1)
    }
}

/// The object inside a JSON value, or the value itself when it is not an
/// object.
///
/// Trusted: matches on `serde_json::Value`, whose `Object` variant holds a
/// `serde_json::Map<String, Value>`; `json_object_of` names that object.
#[verifier::external_body]
fn into_object(v: serde_json::Value) -> (res: Result<JsonObject, serde_json::Value>)
    ensures
        res matches Ok(m) ==> json_object_of(v) == Some(m),
        res matches Err(w) ==> json_object_of(v) is None && w == v,
{
    match v {
        serde_json::Value::Object(m) => Ok(m),
        other => Err(other),
    }
}

/// The JSON value that is the object `m`.
///
/// Trusted: builds `serde_json::Value::Object(m)`, an object value holding `m`.
#[verifier::external_body]
fn object_value(m: JsonObject) -> (v: serde_json::Value)
    ensures
        json_object_of(v) == Some(m),
{
    serde_json::Value::Object(m)
}

/// The entries of an object.
///
/// Trusted: collects `serde_json::Map::into_iter`, which hands out each
/// entry of the map once (the map is a `BTreeMap`, so keys are distinct);
/// stated as: the entries give exactly the map's fields.
#[verifier::external_body]
fn object_entries(m: JsonObject) -> (items: Vec<(String, serde_json::Value)>)
    ensures
        entries_map(items@) == json_entries(m),
{
    m.into_iter().collect()
}

/// Sets the field `k` of an object to `v`.
///
/// Trusted: calls `serde_json::Map::insert`, which inserts the pair,
/// replacing the value of an existing key (the old value it returns is
/// dropped here).
#[verifier::external_body]
fn object_insert(m: &mut JsonObject, k: String, v: serde_json::Value)
    ensures
        json_entries(*final(m)) == json_entries(*old(m)).insert(k@, v),
{
    m.insert(k, v);
}

/// `res` is `a` with the fields of `b` merged in: when both are objects, an
/// object with the fields of both, those of `b` replacing those of `a` of
/// the same name; otherwise `a` itself.
pub open spec fn is_merge_of(res: serde_json::Value, a: serde_json::Value, b: serde_json::Value) -> bool {
    &&& json_object_of(a) is Some && json_object_of(b) is Some ==> (json_object_of(res) matches Some(
        m,
    ) && json_entries(m) == json_entries(json_object_of(a)->0).union_prefer_right(
        json_entries(json_object_of(b)->0),
    ))
    &&& !(json_object_of(a) is Some && json_object_of(b) is Some) ==> res == a
}

/// The value of the field `key` of a JSON value: `None` when the value is
/// not an object or has no such field.
pub open spec fn json_field(v: serde_json::Value, key: Seq<char>) -> Option<serde_json::Value> {
    match json_object_of(v) {
        Some(m) => if json_entries(m).contains_key(key) {
            Some(json_entries(m)[key])
        } else {
            None
        },
        None => None,
    }
}

/// The text of a JSON value that is a string, or `None` when it is not a
/// string.
pub uninterp spec fn json_string_of(v: serde_json::Value) -> Option<Seq<char>>;

/// The field `key` of a JSON value.
///
/// Trusted: calls `serde_json::Value::get` with a `&str` index, which looks
/// the key up in the map of an `Object` and gives `None` for any other value.
#[verifier::external_body]
fn json_get<'a>(v: &'a serde_json::Value, key: &str) -> (res: Option<&'a serde_json::Value>)
    ensures
        res matches Some(f) ==> json_field(*v, key@) == Some(*f),
        res is None ==> json_field(*v, key@) is None,
{
    v.get(key)
}

/// The text of a JSON string.
///
/// Trusted: calls `serde_json::Value::as_str`, which gives the text of a
/// `String` value and `None` for any other value; `json_string_of` names it.
#[verifier::external_body]
fn json_as_str<'a>(v: &'a serde_json::Value) -> (res: Option<&'a str>)
    ensures
        res matches Some(s) ==> json_string_of(*v) == Some(s@),
        res is None ==> json_string_of(*v) is None,
{
    v.as_str()
}

/// The text of the field `key` of a JSON value, when that field holds a
/// string.
pub fn string_field(v: &serde_json::Value, key: &str) -> (res: Option<String>)
    ensures
        res matches Some(s) ==> (json_field(*v, key@) matches Some(f) && json_string_of(f) == Some(
            s@,
        )),
        res is None ==> (json_field(*v, key@) matches Some(f) ==> json_string_of(f) is None),
{
    match json_get(v, key) {
        Some(field) => match json_as_str(field) {
            Some(text) => Some(text.to_owned()),
            None => None,
        },
        None => None,
    }
}

/// After a merge of two objects, each field of `b` has `b`'s value, and each
/// other field of `a` keeps `a`'s value.
pub proof fn merged_fields(res: serde_json::Value, a: serde_json::Value, b: serde_json::Value, key: Seq<char>)
    requires
        is_merge_of(res, a, b),
        json_object_of(a) is Some,
        json_object_of(b) is Some,
    ensures
        json_field(b, key) is Some ==> json_field(res, key) == json_field(b, key),
        json_field(b, key) is None ==> json_field(res, key) == json_field(a, key),
{
}

/// Merges the fields of `b` into `a` when both are JSON objects, a field of
/// `b` replacing one of `a` of the same name; gives `a` otherwise.
pub fn merge(a: serde_json::Value, b: serde_json::Value) -> (res: serde_json::Value)
    ensures
        is_merge_of(res, a, b),
{
    let b_object = match into_object(b) {
        Ok(m) => m,
        Err(_) => {
            return a;
        },
    };
    let ghost a0 = a;
    let mut merged = match into_object(a) {
        Ok(m) => m,
        Err(a) => {
            return a;
        },
    };
    let ghost start = json_entries(merged);
    let items = object_entries(b_object);
    let ghost items0 = items@;
    let n = items.len();
    let mut pending = crate::vecs::reversed(items);
    let mut i: usize = 0;
    assert(items0.take(0) =~= Seq::<(String, serde_json::Value)>::empty());
    assert(start.union_prefer_right(entries_map(items0.take(0))) =~= start);
    while pending.len() > 0
        invariant
            i + pending.len() == n,
            n == items0.len(),
            forall|k: int| 0 <= k < pending.len() ==> #[trigger] pending[k] == items0[n - 1 - k],
            json_entries(merged) == start.union_prefer_right(entries_map(items0.take(i as int))),
        decreases pending.len(),
    {
        let (k, v) = pending.pop().unwrap();
        assert(items0.take(i + 1).drop_last() =~= items0.take(i as int));
        assert(items0.take(i + 1).last() == items0[i as int]);
        object_insert(&mut merged, k, v);
        assert(json_entries(merged) =~= start.union_prefer_right(entries_map(items0.take(i + 1))));
        i = i + 1;
    }
    assert(items0.take(n as int) =~= items0);
    object_value(merged)
}

} // verus!
