//! Reading typed fields out of a decoded JSON record. Free-text fields are
//! unescaped as they are read; identifier, date and enumeration fields are
//! taken as they are. A missing or mistyped field aborts the record with
//! the field's name as the failure path.

use vstd::prelude::*;
use vstd::string::StringExecFns;

use crate::indexed::{numeric_entries, sort_entries};
use crate::json::{
    all_strings, arr_items, array_items, field_of, get_str_field, lookup_field, obj_entries,
    pairs_view, parsed_json, str_field, string_items, value_as_string, values_to_strings,
};
use crate::text::{html_unescaped, unescape, unescape_vec};

verus! {

/// The texts of the string-array field `name`: present, an array, and all
/// of its items strings — otherwise nothing.
pub open spec fn str_list_field(
    entries: Seq<(Seq<char>, serde_json::Value)>,
    name: Seq<char>,
) -> Option<Seq<Seq<char>>> {
    match field_of(entries, name) {
        Some(v) => match arr_items(v) {
            Some(items) => if all_strings(items) {
                Some(string_items(items))
            } else {
                None
            },
            None => None,
        },
        None => None,
    }
}

/// The text of an optional string field: the empty string where the field
/// is absent, its content where it is a string, nothing where it is
/// present with another type.
pub open spec fn opt_str_field(
    entries: Seq<(Seq<char>, serde_json::Value)>,
    name: Seq<char>,
) -> Option<Seq<char>> {
    match field_of(entries, name) {
        Some(v) => crate::json::str_value(v),
        None => Some(Seq::empty()),
    }
}

/// Reads the required field `name` as it is on the wire.
pub(crate) fn req_raw(entries: &Vec<(String, serde_json::Value)>, name: &str) -> (r: Result<
    String,
    String,
>)
    ensures
        r is Ok <==> str_field(pairs_view(entries@), name@) is Some,
        r matches Ok(s) ==> s@ == str_field(pairs_view(entries@), name@)->0,
        r matches Err(p) ==> p@ == name@,
{
    match get_str_field(entries, name) {
        Some(s) => Ok(s),
        None => Err(String::from_str(name)),
    }
}

/// Reads the required free-text field `name`, unescaping it.
pub(crate) fn req_text(entries: &Vec<(String, serde_json::Value)>, name: &str) -> (r: Result<
    String,
    String,
>)
    ensures
        r is Ok <==> str_field(pairs_view(entries@), name@) is Some,
        r matches Ok(s) ==> s@ == html_unescaped(str_field(pairs_view(entries@), name@)->0),
        r matches Err(p) ==> p@ == name@,
{
    match get_str_field(entries, name) {
        Some(s) => Ok(unescape(s.as_str())),
        None => Err(String::from_str(name)),
    }
}

/// Reads the optional free-text field `name`: absent means empty, present
/// means a string, unescaped.
pub(crate) fn opt_text(entries: &Vec<(String, serde_json::Value)>, name: &str) -> (r: Result<
    String,
    String,
>)
    ensures
        r is Ok <==> opt_str_field(pairs_view(entries@), name@) is Some,
        r matches Ok(s) ==> s@ == html_unescaped(opt_str_field(pairs_view(entries@), name@)->0)
            || (field_of(pairs_view(entries@), name@) is None && s@ == Seq::<char>::empty()),
        r matches Err(p) ==> p@ == name@,
{
    match lookup_field(entries, name) {
        Some(v) => match value_as_string(&v) {
            Some(s) => Ok(unescape(s.as_str())),
            None => Err(String::from_str(name)),
        },
        None => Ok(String::new()),
    }
}

/// Reads the required free-text list field `name`, unescaping every
/// element.
pub(crate) fn req_text_list(entries: &Vec<(String, serde_json::Value)>, name: &str) -> (r: Result<
    Vec<String>,
    String,
>)
    ensures
        r is Ok <==> str_list_field(pairs_view(entries@), name@) is Some,
        r matches Ok(v) ==> {
            let texts = str_list_field(pairs_view(entries@), name@)->0;
            &&& v@.len() == texts.len()
            &&& forall|i: int| 0 <= i < texts.len() ==> (#[trigger] v@[i])@ == html_unescaped(
                texts[i],
            )
        },
        r matches Err(p) ==> p@ == name@,
{
    match lookup_field(entries, name) {
        Some(v) => match array_items(&v) {
            Some(items) => match values_to_strings(&items) {
                Some(texts) => Ok(unescape_vec(&texts)),
                None => Err(String::from_str(name)),
            },
            None => Err(String::from_str(name)),
        },
        None => Err(String::from_str(name)),
    }
}

/// The record values a listing body holds: the body parsed as a JSON
/// object, filtered to its numeric keys and ordered by index.
pub open spec fn spec_record_values(body: Seq<u8>) -> Option<Seq<serde_json::Value>> {
    match parsed_json(body) {
        Some(doc) => match obj_entries(doc) {
            Some(entries) => Some(
                sort_entries(numeric_entries(entries)).map_values(
                    |p: (u64, serde_json::Value)| p.1,
                ),
            ),
            None => None,
        },
        None => None,
    }
}

/// A listing body whose object holds exactly the keys `"0"`, `"1"` and
/// `"metadata"`, in whatever order, yields exactly the records at `"0"`
/// and `"1"`, in that order; the metadata never reaches the caller.
pub proof fn lemma_listing_ignores_metadata(
    body: Seq<u8>,
    v0: serde_json::Value,
    v1: serde_json::Value,
    vm: serde_json::Value,
)
    requires
        parsed_json(body) is Some,
        obj_entries(parsed_json(body)->0) is Some,
        obj_entries(parsed_json(body)->0)->0.to_multiset() == seq![
            ("0"@, v0),
            ("1"@, v1),
            ("metadata"@, vm),
        ].to_multiset(),
    ensures
        spec_record_values(body) == Some(seq![v0, v1]),
{
    let entries = obj_entries(parsed_json(body)->0)->0;
    crate::indexed::lemma_metadata_ignored(entries, v0, v1, vm);
    assert(sort_entries(numeric_entries(entries)).map_values(|p: (u64, serde_json::Value)| p.1)
        =~= seq![v0, v1]);
}

} // verus!
