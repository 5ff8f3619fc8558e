//! The JSON surface of the wire protocol. Parsing bytes into a document and
//! taking a document apart are entrusted to `serde_json` (with
//! `serde_path_to_error` for path-carrying parse failures); everything built
//! on top — key filtering, record decoding, classification — is verified
//! against the names given to those results here.

use vstd::prelude::*;
use vstd::string::StringExecFns;

verus! {

#[verifier::external_type_specification]
#[verifier::external_body]
pub struct ExValue(serde_json::Value);

pub assume_specification[ <serde_json::Value as Clone>::clone ](
    v: &serde_json::Value,
) -> (r: serde_json::Value)
    ensures
        r == *v,
;

/// The JSON document held in a byte sequence, if the bytes parse as one.
pub uninterp spec fn parsed_json(bytes: Seq<u8>) -> Option<serde_json::Value>;

/// The path at which the bytes fail to parse as JSON, as
/// `serde_path_to_error` reports it; meaningful only where they do not
/// parse.
pub uninterp spec fn json_err_path(bytes: Seq<u8>) -> Seq<char>;

/// Parses one JSON document, or reports the path at which parsing failed.
///
/// Relies on `serde_path_to_error::deserialize` over a `serde_json`
/// deserializer: whether the bytes parse, and to which document, depends on
/// the bytes alone.
#[verifier::external_body]
pub(crate) fn parse_json(body: &[u8]) -> (r: Result<serde_json::Value, String>)
    ensures
        r is Ok <==> parsed_json(body@) is Some,
        r is Ok ==> r->Ok_0 == parsed_json(body@)->0,
        r is Err ==> r->Err_0@ == json_err_path(body@),
{
    let mut de = serde_json::Deserializer::from_slice(body);
    match serde_path_to_error::deserialize::<_, serde_json::Value>(&mut de) {
        Ok(v) => Ok(v),
        Err(e) => Err(e.path().to_string()),
    }
}

/// The key/value entries of a JSON object, in the iteration order of
/// `serde_json`'s map (sorted by key), or `None` for any other document.
pub uninterp spec fn obj_entries(v: serde_json::Value) -> Option<
    Seq<(Seq<char>, serde_json::Value)>,
>;

/// The view of a vector of key/value entries.
pub open spec fn pairs_view(s: Seq<(String, serde_json::Value)>) -> Seq<
    (Seq<char>, serde_json::Value),
> {
    s.map_values(|p: (String, serde_json::Value)| (p.0@, p.1))
}

/// Hands out the entries of a JSON object.
///
/// Relies on `serde_json::Value::as_object` and the map's iteration, which
/// visits the entries sorted by key.
#[verifier::external_body]
pub(crate) fn object_entries(v: &serde_json::Value) -> (r: Option<
    Vec<(String, serde_json::Value)>,
>)
    ensures
        r is Some <==> obj_entries(*v) is Some,
        r is Some ==> pairs_view(r->0@) == obj_entries(*v)->0,
{
    v.as_object().map(|m| m.iter().map(|(k, val)| (k.clone(), val.clone())).collect())
}

/// The text of a JSON string value, or `None` for any other value.
pub uninterp spec fn str_value(v: serde_json::Value) -> Option<Seq<char>>;

/// Relies on `serde_json::Value::as_str`: the text of a string value.
#[verifier::external_body]
pub(crate) fn value_as_string(v: &serde_json::Value) -> (r: Option<String>)
    ensures
        r is Some <==> str_value(*v) is Some,
        r is Some ==> r->0@ == str_value(*v)->0,
{
    v.as_str().map(|s| s.to_string())
}

/// The items of a JSON array value, or `None` for any other value.
pub uninterp spec fn arr_items(v: serde_json::Value) -> Option<Seq<serde_json::Value>>;

/// Relies on `serde_json::Value::as_array`: the items of an array value.
#[verifier::external_body]
pub(crate) fn array_items(v: &serde_json::Value) -> (r: Option<Vec<serde_json::Value>>)
    ensures
        r is Some <==> arr_items(*v) is Some,
        r is Some ==> r->0@ == arr_items(*v)->0,
{
    v.as_array().cloned()
}

/// The value at the first entry named `name`, if any. Objects from
/// `serde_json` hold each key at most once, so this is the value at `name`.
pub open spec fn field_of(
    entries: Seq<(Seq<char>, serde_json::Value)>,
    name: Seq<char>,
) -> Option<serde_json::Value>
    decreases entries.len(),
{
    if entries.len() == 0 {
        None
    } else if entries[0].0 == name {
        Some(entries[0].1)
    } else {
        field_of(entries.drop_first(), name)
    }
}

/// Whether two strings hold the same text.
pub(crate) fn str_eq(a: &String, b: &str) -> (r: bool)
    ensures
        r == (a@ == b@),
{
    let owned = String::from_str(b);
    *a == owned
}

/// Looks the entry named `name` up.
pub(crate) fn lookup_field(
    entries: &Vec<(String, serde_json::Value)>,
    name: &str,
) -> (r: Option<serde_json::Value>)
    ensures
        r == field_of(pairs_view(entries@), name@),
{
    let ghost model = pairs_view(entries@);
    proof {
        assert(model.skip(0) =~= model);
    }
    let n = entries.len();
    for i in 0..n
        invariant
            n == entries@.len(),
            model == pairs_view(entries@),
            field_of(model, name@) == field_of(model.skip(i as int), name@),
    {
        proof {
            assert(model.skip(i as int).drop_first() =~= model.skip(i + 1));
        }
        if str_eq(&entries[i].0, name) {
            return Some(entries[i].1.clone());
        }
    }
    proof {
        assert(model.skip(n as int) =~= Seq::empty());
    }
    None
}

/// The text at the string field `name`, if the entry is there and is a string.
pub open spec fn str_field(
    entries: Seq<(Seq<char>, serde_json::Value)>,
    name: Seq<char>,
) -> Option<Seq<char>> {
    match field_of(entries, name) {
        Some(v) => str_value(v),
        None => None,
    }
}

/// Reads the string field `name` out of an object's entries.
pub(crate) fn get_str_field(
    entries: &Vec<(String, serde_json::Value)>,
    name: &str,
) -> (r: Option<String>)
    ensures
        r is Some <==> str_field(pairs_view(entries@), name@) is Some,
        r is Some ==> r->0@ == str_field(pairs_view(entries@), name@)->0,
{
    match lookup_field(entries, name) {
        Some(v) => value_as_string(&v),
        None => None,
    }
}

/// Whether every item of a JSON array is a string.
pub open spec fn all_strings(items: Seq<serde_json::Value>) -> bool {
    forall|i: int| 0 <= i < items.len() ==> (#[trigger] str_value(items[i])) is Some
}

/// The texts of a sequence of JSON string values.
pub open spec fn string_items(items: Seq<serde_json::Value>) -> Seq<Seq<char>> {
    Seq::new(items.len(), |i: int| str_value(items[i])->0)
}

/// Turns an array of JSON string values into their texts; `None` as soon as
/// one item is not a string.
pub(crate) fn values_to_strings(items: &Vec<serde_json::Value>) -> (r: Option<Vec<String>>)
    ensures
        r is Some <==> all_strings(items@),
        r is Some ==> {
            &&& r->0@.len() == items@.len()
            &&& forall|i: int| 0 <= i < items@.len() ==> (#[trigger] r->0@[i])@ == string_items(
                items@,
            )[i]
        },
{
    let mut out: Vec<String> = Vec::new();
    let n = items.len();
    for i in 0..n
        invariant
            n == items@.len(),
            out@.len() == i,
            forall|j: int| 0 <= j < i ==> (#[trigger] str_value(items@[j])) is Some,
            forall|j: int| 0 <= j < i ==> (#[trigger] out@[j])@ == str_value(items@[j])->0,
    {
        match value_as_string(&items[i]) {
            Some(s) => out.push(s),
            None => {
                return None;
            },
        }
    }
    Some(out)
}

} // verus!
