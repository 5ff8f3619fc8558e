//! Recording a sale: the `sale/add` endpoint. Numeric fields travel as
//! decimal text; optional fields that the caller leaves out are omitted
//! from the wire form entirely, never sent empty.

use vstd::prelude::*;
use vstd::string::StringExecFns;

use crate::digits::{dec_digits, u64_to_string};
use crate::error::{spec_classify, Error};
use crate::request::{form_encoded, post_form, spec_with_token, string_pairs_view, HttpRequest, Method};

verus! {

/// A sale to record. The amounts are decimal renderings of the caller's
/// numbers; absent optional fields stay off the wire.
pub struct NewSale {
    /// The booking date, `YYYY-mm-dd`.
    pub booking_date: String,
    /// The article number.
    pub article_id: String,
    /// The quantity, a decimal number.
    pub amount: String,
    /// The buyer's membership number.
    pub member_id: Option<u32>,
    /// The callsign or purpose.
    pub callsign: Option<String>,
    /// The sales-tax rate, a decimal number.
    pub sales_tax: Option<String>,
    /// The gross price, a decimal number.
    pub total_price: Option<String>,
    /// The counter reading, a decimal number.
    pub counter: Option<String>,
    /// A free comment.
    pub comment: Option<String>,
    /// The fee category.
    pub cost_type: Option<String>,
    /// The id of the credit account.
    pub caid2: Option<u32>,
    /// The sphere.
    pub spid: Option<u32>,
}

/// The pair an optional numeric field contributes: its decimal rendering,
/// or nothing at all.
pub open spec fn opt_num_pair(name: Seq<char>, v: Option<u32>) -> Seq<(Seq<char>, Seq<char>)> {
    match v {
        Some(n) => seq![(name, dec_digits(n as nat))],
        None => Seq::empty(),
    }
}

/// The pair an optional text field contributes, or nothing at all.
pub open spec fn opt_text_pair(name: Seq<char>, v: Option<String>) -> Seq<(Seq<char>, Seq<char>)> {
    match v {
        Some(s) => seq![(name, s@)],
        None => Seq::empty(),
    }
}

/// The sale's parameters as they go on the wire, before the token is
/// prepended: the three required fields, then each optional field only
/// where it is present.
pub open spec fn spec_sale_params(s: NewSale) -> Seq<(Seq<char>, Seq<char>)> {
    seq![
        ("bookingdate"@, s.booking_date@),
        ("articleid"@, s.article_id@),
        ("amount"@, s.amount@),
    ] + opt_num_pair("memberid"@, s.member_id) + opt_text_pair("callsign"@, s.callsign)
        + opt_text_pair("salestax"@, s.sales_tax) + opt_text_pair("totalprice"@, s.total_price)
        + opt_text_pair("counter"@, s.counter) + opt_text_pair("comment"@, s.comment)
        + opt_text_pair("costtype"@, s.cost_type) + opt_num_pair("caid2"@, s.caid2)
        + opt_num_pair("spid"@, s.spid)
}

/// Appends the pair of an optional text field, or nothing.
fn push_opt_text(out: &mut Vec<(String, String)>, name: &str, v: &Option<String>)
    ensures
        string_pairs_view(final(out)@) == string_pairs_view(old(out)@) + opt_text_pair(name@, *v),
{
    match v {
        Some(s) => {
            out.push((String::from_str(name), s.clone()));
            proof {
                assert(string_pairs_view(out@) =~= string_pairs_view(old(out)@) + opt_text_pair(
                    name@,
                    *v,
                ));
            }
        },
        None => {
            proof {
                assert(string_pairs_view(out@) =~= string_pairs_view(old(out)@) + opt_text_pair(
                    name@,
                    *v,
                ));
            }
        },
    }
}

/// Appends the decimal pair of an optional numeric field, or nothing.
fn push_opt_num(out: &mut Vec<(String, String)>, name: &str, v: &Option<u32>)
    ensures
        string_pairs_view(final(out)@) == string_pairs_view(old(out)@) + opt_num_pair(name@, *v),
{
    match v {
        Some(n) => {
            out.push((String::from_str(name), u64_to_string(*n as u64)));
            proof {
                assert(string_pairs_view(out@) =~= string_pairs_view(old(out)@) + opt_num_pair(
                    name@,
                    *v,
                ));
            }
        },
        None => {
            proof {
                assert(string_pairs_view(out@) =~= string_pairs_view(old(out)@) + opt_num_pair(
                    name@,
                    *v,
                ));
            }
        },
    }
}

impl NewSale {
    /// Builds the wire parameters: required fields first, optional fields
    /// only where present, numbers in decimal.
    pub fn params(&self) -> (r: Vec<(String, String)>)
        ensures
            string_pairs_view(r@) == spec_sale_params(*self),
    {
        let mut out: Vec<(String, String)> = Vec::new();
        out.push((String::from_str("bookingdate"), self.booking_date.clone()));
        out.push((String::from_str("articleid"), self.article_id.clone()));
        out.push((String::from_str("amount"), self.amount.clone()));
        proof {
            assert(string_pairs_view(out@) =~= seq![
                ("bookingdate"@, self.booking_date@),
                ("articleid"@, self.article_id@),
                ("amount"@, self.amount@),
            ]);
        }
        push_opt_num(&mut out, "memberid", &self.member_id);
        push_opt_text(&mut out, "callsign", &self.callsign);
        push_opt_text(&mut out, "salestax", &self.sales_tax);
        push_opt_text(&mut out, "totalprice", &self.total_price);
        push_opt_text(&mut out, "counter", &self.counter);
        push_opt_text(&mut out, "comment", &self.comment);
        push_opt_text(&mut out, "costtype", &self.cost_type);
        push_opt_num(&mut out, "caid2", &self.caid2);
        push_opt_num(&mut out, "spid", &self.spid);
        out
    }
}

/// Builds the `POST` that records a sale: the token merged with the sale's
/// parameters.
pub fn add_sale_request(access_token: &str, new_sale: &NewSale) -> (r: HttpRequest)
    ensures
        r.method == Method::Post,
        r.url@ == "https://www.vereinsflieger.de/interface/rest/sale/add"@,
        r.body matches Some(b) && b@ == form_encoded(
            spec_with_token(access_token@, spec_sale_params(*new_sale)),
        ),
{
    let params = new_sale.params();
    post_form("https://www.vereinsflieger.de/interface/rest/sale/add", access_token, &params)
}

/// Reads the sale outcome. Success yields nothing.
pub fn add_sale_response(status: u16, body: &Vec<u8>) -> (r: Result<(), Error>)
    ensures
        r is Ok <==> spec_classify(status, body@) is Ok,
        r matches Err(e) ==> e@ == spec_classify(status, body@)->Err_0,
{
    crate::error::error_for_status(status, body)
}

/// A sale with no optional field contributes exactly the three required
/// pairs, and its full wire mapping is the token pair followed by them: no
/// optional key appears at all, empty or otherwise.
pub proof fn lemma_minimal_sale_form(token: Seq<char>, s: NewSale)
    requires
        s.member_id is None,
        s.callsign is None,
        s.sales_tax is None,
        s.total_price is None,
        s.counter is None,
        s.comment is None,
        s.cost_type is None,
        s.caid2 is None,
        s.spid is None,
    ensures
        spec_with_token(token, spec_sale_params(s)) =~= seq![
            ("accesstoken"@, token),
            ("bookingdate"@, s.booking_date@),
            ("articleid"@, s.article_id@),
            ("amount"@, s.amount@),
        ],
{
}

} // verus!
