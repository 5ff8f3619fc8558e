//! The article listing: the `articles/list` endpoint and the `Article` and
//! `Price` records it yields.

use vstd::prelude::*;
use vstd::string::StringExecFns;

use crate::digits::u64_to_string;
use crate::error::{spec_classify, Error};
use crate::indexed::sorted_numeric_entries;
use crate::json::{
    array_items, field_of, lookup_field, obj_entries, object_entries, pairs_view, parse_json,
    str_field,
};
use crate::records::{opt_str_field, opt_text, req_raw, req_text, spec_record_values};
use crate::request::{form_encoded, post_form, spec_with_token, HttpRequest, Method};
use crate::text::html_unescaped;
use crate::user::list_field;

verus! {

broadcast use vstd::std_specs::control_flow::group_control_flow_axioms;

/// One price entry of an article: a validity range and the gross unit
/// price, all carried as the service writes them.
pub struct Price {
    /// Valid from, a `YYYY-MM-DD` date.
    pub valid_from: String,
    /// Valid to, a `YYYY-MM-DD` date.
    pub valid_to: String,
    /// The sales-tax rate.
    pub sales_tax: String,
    /// The gross unit price.
    pub unit_price: String,
}

/// Whether a JSON value decodes as a [`Price`].
pub open spec fn price_decodable(v: serde_json::Value) -> bool {
    &&& obj_entries(v) is Some
    &&& str_field(obj_entries(v)->0, "validfrom"@) is Some
    &&& str_field(obj_entries(v)->0, "validto"@) is Some
    &&& str_field(obj_entries(v)->0, "salestax"@) is Some
    &&& str_field(obj_entries(v)->0, "unitprice"@) is Some
}

/// Whether `p` is the decoding of the JSON value `v`. Price fields are
/// dates and numbers, no free text: nothing is unescaped.
pub open spec fn price_matches(p: Price, v: serde_json::Value) -> bool {
    &&& price_decodable(v)
    &&& p.valid_from@ == str_field(obj_entries(v)->0, "validfrom"@)->0
    &&& p.valid_to@ == str_field(obj_entries(v)->0, "validto"@)->0
    &&& p.sales_tax@ == str_field(obj_entries(v)->0, "salestax"@)->0
    &&& p.unit_price@ == str_field(obj_entries(v)->0, "unitprice"@)->0
}

/// Decodes one price entry.
fn decode_price(v: &serde_json::Value) -> (r: Result<Price, String>)
    ensures
        r is Ok <==> price_decodable(*v),
        r matches Ok(p) ==> price_matches(p, *v),
{
    let entries = match object_entries(v) {
        Some(e) => e,
        None => {
            return Err(String::from_str("."));
        },
    };
    let valid_from = req_raw(&entries, "validfrom")?;
    let valid_to = req_raw(&entries, "validto")?;
    let sales_tax = req_raw(&entries, "salestax")?;
    let unit_price = req_raw(&entries, "unitprice")?;
    Ok(Price { valid_from, valid_to, sales_tax, unit_price })
}

/// Whether every item of a sequence decodes as a [`Price`].
pub open spec fn all_prices_decodable(items: Seq<serde_json::Value>) -> bool {
    forall|i: int| 0 <= i < items.len() ==> price_decodable(#[trigger] items[i])
}

/// Reads the price-list field `name`: an array whose items all decode as
/// [`Price`]s.
fn req_price_list(entries: &Vec<(String, serde_json::Value)>, name: &str) -> (r: Result<
    Vec<Price>,
    String,
>)
    ensures
        r is Ok <==> (list_field(pairs_view(entries@), name@) is Some && all_prices_decodable(
            list_field(pairs_view(entries@), name@)->0,
        )),
        r matches Ok(ps) ==> {
            let items = list_field(pairs_view(entries@), name@)->0;
            &&& ps@.len() == items.len()
            &&& forall|i: int| 0 <= i < items.len() ==> price_matches(#[trigger] ps@[i], items[i])
        },
{
    let items = match lookup_field(entries, name) {
        Some(v) => match array_items(&v) {
            Some(items) => items,
            None => {
                return Err(String::from_str(name));
            },
        },
        None => {
            return Err(String::from_str(name));
        },
    };
    let mut out: Vec<Price> = Vec::new();
    let n = items.len();
    for i in 0..n
        invariant
            n == items@.len(),
            out@.len() == i,
            list_field(pairs_view(entries@), name@) == Some(items@),
            forall|j: int| 0 <= j < i ==> price_decodable(#[trigger] items@[j]),
            forall|j: int| 0 <= j < i ==> price_matches(#[trigger] out@[j], items@[j]),
    {
        match decode_price(&items[i]) {
            Ok(p) => out.push(p),
            Err(sub) => {
                proof {
                    assert(!price_decodable(items@[i as int]));
                }
                let mut path = String::from_str(name);
                path.append("[");
                let index = u64_to_string(i as u64);
                path.append(index.as_str());
                path.append("].");
                path.append(sub.as_str());
                return Err(path);
            },
        }
    }
    Ok(out)
}

/// One article record, as the service lists it.
pub struct Article {
    /// The article number.
    pub article_id: String,
    /// The article's designation.
    pub designation: String,
    /// The article's description; empty where the service omits it.
    pub description: String,
    /// The article's unit.
    pub unit_type: String,
    /// The fee category.
    pub cost_type: String,
    /// The sphere.
    pub sphere: String,
    /// The ledger account.
    pub account: String,
    /// The price entries, in the service's order.
    pub prices: Vec<Price>,
}

/// Whether a JSON value decodes as an [`Article`]: an object carrying every
/// required field with its required shape; the description may be absent.
pub open spec fn article_decodable(v: serde_json::Value) -> bool {
    &&& obj_entries(v) is Some
    &&& {
        let es = obj_entries(v)->0;
        &&& str_field(es, "articleid"@) is Some
        &&& str_field(es, "designation"@) is Some
        &&& opt_str_field(es, "description"@) is Some
        &&& str_field(es, "unittype"@) is Some
        &&& str_field(es, "costtype"@) is Some
        &&& str_field(es, "spid"@) is Some
        &&& str_field(es, "account"@) is Some
        &&& list_field(es, "prices"@) is Some
        &&& all_prices_decodable(list_field(es, "prices"@)->0)
    }
}

/// Whether `a` is the decoding of the JSON value `v`: every free-text
/// field unescaped, and the description empty where it was absent.
pub open spec fn article_matches(a: Article, v: serde_json::Value) -> bool {
    &&& article_decodable(v)
    &&& {
        let es = obj_entries(v)->0;
        &&& a.article_id@ == html_unescaped(str_field(es, "articleid"@)->0)
        &&& a.designation@ == html_unescaped(str_field(es, "designation"@)->0)
        &&& (a.description@ == html_unescaped(opt_str_field(es, "description"@)->0) || (field_of(
            es,
            "description"@,
        ) is None && a.description@ == Seq::<char>::empty()))
        &&& a.unit_type@ == html_unescaped(str_field(es, "unittype"@)->0)
        &&& a.cost_type@ == html_unescaped(str_field(es, "costtype"@)->0)
        &&& a.sphere@ == html_unescaped(str_field(es, "spid"@)->0)
        &&& a.account@ == html_unescaped(str_field(es, "account"@)->0)
        &&& {
            let items = list_field(es, "prices"@)->0;
            &&& a.prices@.len() == items.len()
            &&& forall|i: int| 0 <= i < items.len() ==> price_matches(
                #[trigger] a.prices@[i],
                items[i],
            )
        }
    }
}

/// Decodes one article record.
fn decode_article(v: &serde_json::Value) -> (r: Result<Article, String>)
    ensures
        r is Ok <==> article_decodable(*v),
        r matches Ok(a) ==> article_matches(a, *v),
{
    let entries = match object_entries(v) {
        Some(e) => e,
        None => {
            return Err(String::from_str("."));
        },
    };
    let article_id = req_text(&entries, "articleid")?;
    let designation = req_text(&entries, "designation")?;
    let description = opt_text(&entries, "description")?;
    let unit_type = req_text(&entries, "unittype")?;
    let cost_type = req_text(&entries, "costtype")?;
    let sphere = req_text(&entries, "spid")?;
    let account = req_text(&entries, "account")?;
    let prices = req_price_list(&entries, "prices")?;
    Ok(Article { article_id, designation, description, unit_type, cost_type, sphere, account, prices })
}

/// Whether every record value of a listing decodes as an [`Article`].
pub open spec fn all_articles_decodable(items: Seq<serde_json::Value>) -> bool {
    forall|i: int| 0 <= i < items.len() ==> article_decodable(#[trigger] items[i])
}

/// Builds the `POST` that lists the articles: the token is the only
/// parameter.
pub fn list_articles_request(access_token: &str) -> (r: HttpRequest)
    ensures
        r.method == Method::Post,
        r.url@ == "https://www.vereinsflieger.de/interface/rest/articles/list"@,
        r.body matches Some(b) && b@ == form_encoded(
            spec_with_token(access_token@, Seq::empty()),
        ),
{
    let params: Vec<(String, String)> = Vec::new();
    let r = post_form(
        "https://www.vereinsflieger.de/interface/rest/articles/list",
        access_token,
        &params,
    );
    proof {
        assert(crate::request::string_pairs_view(params@) =~= Seq::<
            (Seq<char>, Seq<char>),
        >::empty());
    }
    r
}

/// Reads the article-listing outcome: on a successful status, the body's
/// numeric-keyed records ordered by index, each decoded as an [`Article`];
/// a record that does not decode aborts the whole call with a
/// path-carrying decoding error.
pub fn list_articles_response(status: u16, body: &Vec<u8>) -> (r: Result<Vec<Article>, Error>)
    ensures
        r is Ok <==> (spec_classify(status, body@) is Ok && spec_record_values(body@) is Some
            && all_articles_decodable(spec_record_values(body@)->0)),
        r matches Ok(arts) ==> {
            let vals = spec_record_values(body@)->0;
            &&& arts@.len() == vals.len()
            &&& forall|i: int| 0 <= i < vals.len() ==> article_matches(
                #[trigger] arts@[i],
                vals[i],
            )
        },
        r matches Err(e) ==> match spec_classify(status, body@) {
            Err(ce) => e@ == ce,
            Ok(_) => e@ is DeserializationFailed,
        },
{
    crate::error::error_for_status(status, body)?;
    let doc = match parse_json(body.as_slice()) {
        Ok(d) => d,
        Err(path) => {
            return Err(Error::DeserializationFailed { path });
        },
    };
    let entries = match object_entries(&doc) {
        Some(e) => e,
        None => {
            return Err(Error::DeserializationFailed { path: String::from_str(".") });
        },
    };
    let sorted = sorted_numeric_entries(&entries);
    let ghost vals = spec_record_values(body@)->0;
    proof {
        assert(vals.len() == sorted@.len());
        assert(forall|i: int| 0 <= i < sorted@.len() ==> vals[i] == (#[trigger] sorted@[i]).1);
    }
    let mut out: Vec<Article> = Vec::new();
    let n = sorted.len();
    for i in 0..n
        invariant
            n == sorted@.len(),
            out@.len() == i,
            spec_classify(status, body@) is Ok,
            spec_record_values(body@) == Some(vals),
            vals.len() == sorted@.len(),
            forall|j: int| 0 <= j < sorted@.len() ==> vals[j] == (#[trigger] sorted@[j]).1,
            forall|j: int| 0 <= j < i ==> article_decodable(#[trigger] vals[j]),
            forall|j: int| 0 <= j < i ==> article_matches(#[trigger] out@[j], vals[j]),
    {
        match decode_article(&sorted[i].1) {
            Ok(a) => out.push(a),
            Err(path) => {
                proof {
                    assert(!article_decodable(vals[i as int]));
                }
                return Err(Error::DeserializationFailed { path });
            },
        }
    }
    Ok(out)
}

} // verus!
