//! The user listing: the `user/list` endpoint and the `User` and `Key`
//! records it yields. Free-text fields are unescaped on decode; identifier,
//! date and enumeration fields are not.

use vstd::prelude::*;
use vstd::string::StringExecFns;

use crate::digits::u64_to_string;
use crate::error::{spec_classify, Error};
use crate::indexed::sorted_numeric_entries;
use crate::json::{
    arr_items, array_items, field_of, lookup_field, obj_entries, object_entries, pairs_view,
    parse_json, str_field,
};
use crate::records::{req_raw, req_text, req_text_list, spec_record_values, str_list_field};
use crate::request::{form_encoded, post_form, spec_with_token, HttpRequest, Method};
use crate::text::html_unescaped;

verus! {

broadcast use vstd::std_specs::control_flow::group_control_flow_axioms;

/// One entry of a user's key list: a title and a key name, both free text.
pub struct Key {
    pub title: String,
    pub name: String,
}

/// Whether a JSON value decodes as a [`Key`].
pub open spec fn key_decodable(v: serde_json::Value) -> bool {
    &&& obj_entries(v) is Some
    &&& str_field(obj_entries(v)->0, "title"@) is Some
    &&& str_field(obj_entries(v)->0, "keyname"@) is Some
}

/// Whether `k` is the decoding of the JSON value `v`: both fields read and
/// unescaped.
pub open spec fn key_matches(k: Key, v: serde_json::Value) -> bool {
    &&& key_decodable(v)
    &&& k.title@ == html_unescaped(str_field(obj_entries(v)->0, "title"@)->0)
    &&& k.name@ == html_unescaped(str_field(obj_entries(v)->0, "keyname"@)->0)
}

/// Decodes one entry of a key list.
fn decode_key(v: &serde_json::Value) -> (r: Result<Key, String>)
    ensures
        r is Ok <==> key_decodable(*v),
        r matches Ok(k) ==> key_matches(k, *v),
{
    let entries = match object_entries(v) {
        Some(e) => e,
        None => {
            return Err(String::from_str("."));
        },
    };
    let title = req_text(&entries, "title")?;
    let name = req_text(&entries, "keyname")?;
    Ok(Key { title, name })
}

/// The items of the array field `name`, if it is there and is an array.
pub open spec fn list_field(
    entries: Seq<(Seq<char>, serde_json::Value)>,
    name: Seq<char>,
) -> Option<Seq<serde_json::Value>> {
    match field_of(entries, name) {
        Some(v) => arr_items(v),
        None => None,
    }
}

/// Whether every item of a sequence decodes as a [`Key`].
pub open spec fn all_keys_decodable(items: Seq<serde_json::Value>) -> bool {
    forall|i: int| 0 <= i < items.len() ==> key_decodable(#[trigger] items[i])
}

/// Reads the key-list field `name`: an array whose items all decode as
/// [`Key`]s.
fn req_key_list(entries: &Vec<(String, serde_json::Value)>, name: &str) -> (r: Result<
    Vec<Key>,
    String,
>)
    ensures
        r is Ok <==> (list_field(pairs_view(entries@), name@) is Some && all_keys_decodable(
            list_field(pairs_view(entries@), name@)->0,
        )),
        r matches Ok(ks) ==> {
            let items = list_field(pairs_view(entries@), name@)->0;
            &&& ks@.len() == items.len()
            &&& forall|i: int| 0 <= i < items.len() ==> key_matches(#[trigger] ks@[i], items[i])
        },
{
    let items = match lookup_field(entries, name) {
        Some(v) => match array_items(&v) {
            Some(items) => items,
            None => {
                return Err(String::from_str(name));
            },
        },
        None => {
            return Err(String::from_str(name));
        },
    };
    let mut out: Vec<Key> = Vec::new();
    let n = items.len();
    for i in 0..n
        invariant
            n == items@.len(),
            out@.len() == i,
            list_field(pairs_view(entries@), name@) == Some(items@),
            forall|j: int| 0 <= j < i ==> key_decodable(#[trigger] items@[j]),
            forall|j: int| 0 <= j < i ==> key_matches(#[trigger] out@[j], items@[j]),
    {
        match decode_key(&items[i]) {
            Ok(k) => out.push(k),
            Err(sub) => {
                proof {
                    assert(!key_decodable(items@[i as int]));
                }
                let mut path = String::from_str(name);
                path.append("[");
                let index = u64_to_string(i as u64);
                path.append(index.as_str());
                path.append("].");
                path.append(sub.as_str());
                return Err(path);
            },
        }
    }
    Ok(out)
}

/// One member record, as the service lists it.
pub struct User {
    /// The internal id.
    pub user_id: String,
    /// The personal title.
    pub title: String,
    pub first_name: String,
    pub last_name: String,
    pub nickname: String,
    /// The gender mark, an enumeration.
    pub gender: String,
    pub street: String,
    pub post_office_box: String,
    pub careof: String,
    pub zipcode: String,
    pub town: String,
    pub country: String,
    /// The birthday, a date.
    pub birthday: String,
    pub birthplace: String,
    pub email: String,
    pub home_number: String,
    pub mobile_number: String,
    pub work_number: String,
    pub work_mobile_number: String,
    pub car_licenseplate: String,
    pub identification: String,
    pub nato_id: String,
    /// The police certificate's expiry, a date.
    pub policecert_validto: String,
    pub ice_contact1: String,
    pub ice_contact2: String,
    /// The membership number.
    pub member_id: String,
    /// The membership's begin, a date.
    pub member_begin: String,
    /// The membership's end, a date.
    pub member_end: String,
    pub member_status: String,
    pub letter_title: String,
    /// Whether the member receives circular mail, an enumeration.
    pub mailrecipient: String,
    /// Unfinished curricula.
    pub educations: Vec<String>,
    /// Assigned roles.
    pub roles: Vec<String>,
    /// Assigned sectors.
    pub sector: Vec<String>,
    /// Assigned functions.
    pub functions: Vec<String>,
    /// Assigned keys.
    pub keymanagement: Vec<Key>,
}

/// Whether a JSON value decodes as a [`User`]: an object carrying every
/// required field with its required shape.
pub open spec fn user_decodable(v: serde_json::Value) -> bool {
    &&& obj_entries(v) is Some
    &&& {
        let es = obj_entries(v)->0;
        &&& str_field(es, "uid"@) is Some
        &&& str_field(es, "title"@) is Some
        &&& str_field(es, "firstname"@) is Some
        &&& str_field(es, "lastname"@) is Some
        &&& str_field(es, "nickname"@) is Some
        &&& str_field(es, "gender"@) is Some
        &&& str_field(es, "street"@) is Some
        &&& str_field(es, "postofficebox"@) is Some
        &&& str_field(es, "careof"@) is Some
        &&& str_field(es, "zipcode"@) is Some
        &&& str_field(es, "town"@) is Some
        &&& str_field(es, "country"@) is Some
        &&& str_field(es, "birthday"@) is Some
        &&& str_field(es, "birthplace"@) is Some
        &&& str_field(es, "email"@) is Some
        &&& str_field(es, "homenumber"@) is Some
        &&& str_field(es, "mobilenumber"@) is Some
        &&& str_field(es, "phonenumber"@) is Some
        &&& str_field(es, "phonenumber2"@) is Some
        &&& str_field(es, "carlicenseplate"@) is Some
        &&& str_field(es, "identification"@) is Some
        &&& str_field(es, "natoid"@) is Some
        &&& str_field(es, "policecert_validto"@) is Some
        &&& str_field(es, "ice_contact1"@) is Some
        &&& str_field(es, "ice_contact2"@) is Some
        &&& str_field(es, "memberid"@) is Some
        &&& str_field(es, "memberbegin"@) is Some
        &&& str_field(es, "memberend"@) is Some
        &&& str_field(es, "memberstatus"@) is Some
        &&& str_field(es, "lettertitle"@) is Some
        &&& str_field(es, "mailrecipient"@) is Some
        &&& str_list_field(es, "educations"@) is Some
        &&& str_list_field(es, "roles"@) is Some
        &&& str_list_field(es, "sector"@) is Some
        &&& str_list_field(es, "functions"@) is Some
        &&& list_field(es, "keymanagement"@) is Some
        &&& all_keys_decodable(list_field(es, "keymanagement"@)->0)
    }
}

/// Whether `texts` is the unescaping of `raw`, element by element.
pub open spec fn unescaped_list(texts: Seq<String>, raw: Seq<Seq<char>>) -> bool {
    &&& texts.len() == raw.len()
    &&& forall|i: int| 0 <= i < raw.len() ==> (#[trigger] texts[i])@ == html_unescaped(raw[i])
}

/// Whether `u` is the decoding of the JSON value `v`: every free-text field
/// unescaped, every identifier, date and enumeration field as it is.
pub open spec fn user_matches(u: User, v: serde_json::Value) -> bool {
    &&& user_decodable(v)
    &&& {
        let es = obj_entries(v)->0;
        &&& u.user_id@ == str_field(es, "uid"@)->0
        &&& u.title@ == html_unescaped(str_field(es, "title"@)->0)
        &&& u.first_name@ == html_unescaped(str_field(es, "firstname"@)->0)
        &&& u.last_name@ == html_unescaped(str_field(es, "lastname"@)->0)
        &&& u.nickname@ == html_unescaped(str_field(es, "nickname"@)->0)
        &&& u.gender@ == str_field(es, "gender"@)->0
        &&& u.street@ == html_unescaped(str_field(es, "street"@)->0)
        &&& u.post_office_box@ == html_unescaped(str_field(es, "postofficebox"@)->0)
        &&& u.careof@ == html_unescaped(str_field(es, "careof"@)->0)
        &&& u.zipcode@ == html_unescaped(str_field(es, "zipcode"@)->0)
        &&& u.town@ == html_unescaped(str_field(es, "town"@)->0)
        &&& u.country@ == html_unescaped(str_field(es, "country"@)->0)
        &&& u.birthday@ == str_field(es, "birthday"@)->0
        &&& u.birthplace@ == html_unescaped(str_field(es, "birthplace"@)->0)
        &&& u.email@ == html_unescaped(str_field(es, "email"@)->0)
        &&& u.home_number@ == html_unescaped(str_field(es, "homenumber"@)->0)
        &&& u.mobile_number@ == html_unescaped(str_field(es, "mobilenumber"@)->0)
        &&& u.work_number@ == html_unescaped(str_field(es, "phonenumber"@)->0)
        &&& u.work_mobile_number@ == html_unescaped(str_field(es, "phonenumber2"@)->0)
        &&& u.car_licenseplate@ == html_unescaped(str_field(es, "carlicenseplate"@)->0)
        &&& u.identification@ == html_unescaped(str_field(es, "identification"@)->0)
        &&& u.nato_id@ == html_unescaped(str_field(es, "natoid"@)->0)
        &&& u.policecert_validto@ == str_field(es, "policecert_validto"@)->0
        &&& u.ice_contact1@ == html_unescaped(str_field(es, "ice_contact1"@)->0)
        &&& u.ice_contact2@ == html_unescaped(str_field(es, "ice_contact2"@)->0)
        &&& u.member_id@ == str_field(es, "memberid"@)->0
        &&& u.member_begin@ == str_field(es, "memberbegin"@)->0
        &&& u.member_end@ == str_field(es, "memberend"@)->0
        &&& u.member_status@ == html_unescaped(str_field(es, "memberstatus"@)->0)
        &&& u.letter_title@ == html_unescaped(str_field(es, "lettertitle"@)->0)
        &&& u.mailrecipient@ == str_field(es, "mailrecipient"@)->0
        &&& unescaped_list(u.educations@, str_list_field(es, "educations"@)->0)
        &&& unescaped_list(u.roles@, str_list_field(es, "roles"@)->0)
        &&& unescaped_list(u.sector@, str_list_field(es, "sector"@)->0)
        &&& unescaped_list(u.functions@, str_list_field(es, "functions"@)->0)
        &&& {
            let items = list_field(es, "keymanagement"@)->0;
            &&& u.keymanagement@.len() == items.len()
            &&& forall|i: int| 0 <= i < items.len() ==> key_matches(
                #[trigger] u.keymanagement@[i],
                items[i],
            )
        }
    }
}

/// Decodes one user record.
fn decode_user(v: &serde_json::Value) -> (r: Result<User, String>)
    ensures
        r is Ok <==> user_decodable(*v),
        r matches Ok(u) ==> user_matches(u, *v),
{
    let entries = match object_entries(v) {
        Some(e) => e,
        None => {
            return Err(String::from_str("."));
        },
    };
    let user_id = req_raw(&entries, "uid")?;
    let title = req_text(&entries, "title")?;
    let first_name = req_text(&entries, "firstname")?;
    let last_name = req_text(&entries, "lastname")?;
    let nickname = req_text(&entries, "nickname")?;
    let gender = req_raw(&entries, "gender")?;
    let street = req_text(&entries, "street")?;
    let post_office_box = req_text(&entries, "postofficebox")?;
    let careof = req_text(&entries, "careof")?;
    let zipcode = req_text(&entries, "zipcode")?;
    let town = req_text(&entries, "town")?;
    let country = req_text(&entries, "country")?;
    let birthday = req_raw(&entries, "birthday")?;
    let birthplace = req_text(&entries, "birthplace")?;
    let email = req_text(&entries, "email")?;
    let home_number = req_text(&entries, "homenumber")?;
    let mobile_number = req_text(&entries, "mobilenumber")?;
    let work_number = req_text(&entries, "phonenumber")?;
    let work_mobile_number = req_text(&entries, "phonenumber2")?;
    let car_licenseplate = req_text(&entries, "carlicenseplate")?;
    let identification = req_text(&entries, "identification")?;
    let nato_id = req_text(&entries, "natoid")?;
    let policecert_validto = req_raw(&entries, "policecert_validto")?;
    let ice_contact1 = req_text(&entries, "ice_contact1")?;
    let ice_contact2 = req_text(&entries, "ice_contact2")?;
    let member_id = req_raw(&entries, "memberid")?;
    let member_begin = req_raw(&entries, "memberbegin")?;
    let member_end = req_raw(&entries, "memberend")?;
    let member_status = req_text(&entries, "memberstatus")?;
    let letter_title = req_text(&entries, "lettertitle")?;
    let mailrecipient = req_raw(&entries, "mailrecipient")?;
    let educations = req_text_list(&entries, "educations")?;
    let roles = req_text_list(&entries, "roles")?;
    let sector = req_text_list(&entries, "sector")?;
    let functions = req_text_list(&entries, "functions")?;
    let keymanagement = req_key_list(&entries, "keymanagement")?;
    Ok(
        User {
            user_id,
            title,
            first_name,
            last_name,
            nickname,
            gender,
            street,
            post_office_box,
            careof,
            zipcode,
            town,
            country,
            birthday,
            birthplace,
            email,
            home_number,
            mobile_number,
            work_number,
            work_mobile_number,
            car_licenseplate,
            identification,
            nato_id,
            policecert_validto,
            ice_contact1,
            ice_contact2,
            member_id,
            member_begin,
            member_end,
            member_status,
            letter_title,
            mailrecipient,
            educations,
            roles,
            sector,
            functions,
            keymanagement,
        },
    )
}

/// Whether every record value of a listing decodes as a [`User`].
pub open spec fn all_users_decodable(items: Seq<serde_json::Value>) -> bool {
    forall|i: int| 0 <= i < items.len() ==> user_decodable(#[trigger] items[i])
}

/// Builds the `POST` that lists the users: the token is the only parameter.
pub fn list_users_request(access_token: &str) -> (r: HttpRequest)
    ensures
        r.method == Method::Post,
        r.url@ == "https://www.vereinsflieger.de/interface/rest/user/list"@,
        r.body matches Some(b) && b@ == form_encoded(
            spec_with_token(access_token@, Seq::empty()),
        ),
{
    let params: Vec<(String, String)> = Vec::new();
    let r = post_form(
        "https://www.vereinsflieger.de/interface/rest/user/list",
        access_token,
        &params,
    );
    proof {
        assert(crate::request::string_pairs_view(params@) =~= Seq::<
            (Seq<char>, Seq<char>),
        >::empty());
    }
    r
}

/// Reads the user-listing outcome: on a successful status, the body's
/// numeric-keyed records ordered by index, each decoded as a [`User`]; a
/// record that does not decode aborts the whole call with a path-carrying
/// decoding error.
pub fn list_users_response(status: u16, body: &Vec<u8>) -> (r: Result<Vec<User>, Error>)
    ensures
        r is Ok <==> (spec_classify(status, body@) is Ok && spec_record_values(body@) is Some
            && all_users_decodable(spec_record_values(body@)->0)),
        r matches Ok(us) ==> {
            let vals = spec_record_values(body@)->0;
            &&& us@.len() == vals.len()
            &&& forall|i: int| 0 <= i < vals.len() ==> user_matches(#[trigger] us@[i], vals[i])
        },
        r matches Err(e) ==> match spec_classify(status, body@) {
            Err(ce) => e@ == ce,
            Ok(_) => e@ is DeserializationFailed,
        },
{
    crate::error::error_for_status(status, body)?;
    let doc = match parse_json(body.as_slice()) {
        Ok(d) => d,
        Err(path) => {
            return Err(Error::DeserializationFailed { path });
        },
    };
    let entries = match object_entries(&doc) {
        Some(e) => e,
        None => {
            return Err(Error::DeserializationFailed { path: String::from_str(".") });
        },
    };
    let sorted = sorted_numeric_entries(&entries);
    let ghost vals = spec_record_values(body@)->0;
    proof {
        assert(vals.len() == sorted@.len());
        assert(forall|i: int| 0 <= i < sorted@.len() ==> vals[i] == (#[trigger] sorted@[i]).1);
    }
    let mut out: Vec<User> = Vec::new();
    let n = sorted.len();
    for i in 0..n
        invariant
            n == sorted@.len(),
            out@.len() == i,
            spec_classify(status, body@) is Ok,
            spec_record_values(body@) == Some(vals),
            vals.len() == sorted@.len(),
            forall|j: int| 0 <= j < sorted@.len() ==> vals[j] == (#[trigger] sorted@[j]).1,
            forall|j: int| 0 <= j < i ==> user_decodable(#[trigger] vals[j]),
            forall|j: int| 0 <= j < i ==> user_matches(#[trigger] out@[j], vals[j]),
    {
        match decode_user(&sorted[i].1) {
            Ok(u) => out.push(u),
            Err(path) => {
                proof {
                    assert(!user_decodable(vals[i as int]));
                }
                return Err(Error::DeserializationFailed { path });
            },
        }
    }
    Ok(out)
}

} // verus!
