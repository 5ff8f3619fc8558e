//! Request building. Every endpoint transmits a flat ordered mapping of
//! string keys to string values, form-encoded; authenticated endpoints
//! prepend the held access token to their own parameters under a fixed key.

use vstd::prelude::*;
use vstd::string::StringExecFns;

verus! {

/// The HTTP method of a request.
#[derive(Clone, Copy, Debug, PartialEq, Eq, Structural)]
pub enum Method {
    Get,
    Post,
}

/// A request ready for the transport: where to send it, how, and the
/// form-encoded body, if any. Requests with a body are sent with the
/// `application/x-www-form-urlencoded` content type.
pub struct HttpRequest {
    pub method: Method,
    pub url: String,
    pub body: Option<String>,
}

/// The view of a vector of form parameters.
pub open spec fn string_pairs_view(s: Seq<(String, String)>) -> Seq<(Seq<char>, Seq<char>)> {
    s.map_values(|p: (String, String)| (p.0@, p.1@))
}

/// The form-encoding of an ordered mapping, as `serde_urlencoded` writes it.
pub uninterp spec fn form_encoded(pairs: Seq<(Seq<char>, Seq<char>)>) -> Seq<char>;

/// Form-encodes an ordered mapping of string keys to string values.
///
/// Relies on `serde_urlencoded::to_string`, which percent-encodes each key
/// and value and joins the pairs in order; on a sequence of string pairs it
/// does not fail.
#[verifier::external_body]
pub(crate) fn encode_form(pairs: &Vec<(String, String)>) -> (r: String)
    ensures
        r@ == form_encoded(string_pairs_view(pairs@)),
{
    match serde_urlencoded::to_string(pairs) {
        Ok(s) => s,
        Err(_) => String::new(),
    }
}

/// An ordered mapping with the access token prepended under its fixed key.
pub open spec fn spec_with_token(
    token: Seq<char>,
    params: Seq<(Seq<char>, Seq<char>)>,
) -> Seq<(Seq<char>, Seq<char>)> {
    seq![("accesstoken"@, token)] + params
}

/// An endpoint's parameters together with the access token that every
/// authenticated request must carry.
pub struct WithAccessToken<'a> {
    pub access_token: &'a str,
    pub params: &'a Vec<(String, String)>,
}

impl<'a> WithAccessToken<'a> {
    /// Pairs the access token with an endpoint's own parameters.
    pub fn new(access_token: &'a str, params: &'a Vec<(String, String)>) -> (r: Self)
        ensures
            r.access_token@ == access_token@,
            r.params == params,
    {
        WithAccessToken { access_token, params }
    }

    /// The flat ordered mapping that goes on the wire: the token under its
    /// fixed key, then the parameters in their given order.
    pub fn pairs(&self) -> (r: Vec<(String, String)>)
        ensures
            string_pairs_view(r@) == spec_with_token(
                self.access_token@,
                string_pairs_view(self.params@),
            ),
    {
        let mut out: Vec<(String, String)> = Vec::new();
        out.push((String::from_str("accesstoken"), String::from_str(self.access_token)));
        let n = self.params.len();
        for i in 0..n
            invariant
                n == self.params@.len(),
                out@.len() == i + 1,
                out@[0].0@ == "accesstoken"@,
                out@[0].1@ == self.access_token@,
                forall|j: int| 0 <= j < i ==> (#[trigger] out@[j + 1]).0@ == self.params@[j].0@
                    && out@[j + 1].1@ == self.params@[j].1@,
        {
            let key = self.params[i].0.clone();
            let value = self.params[i].1.clone();
            out.push((key, value));
        }
        proof {
            let ghost lhs = string_pairs_view(out@);
            let ghost rhs = spec_with_token(self.access_token@, string_pairs_view(self.params@));
            assert forall|j: int| 0 <= j < lhs.len() implies lhs[j] == rhs[j] by {
                if j >= 1 {
                    assert(out@[(j - 1) + 1].0@ == self.params@[j - 1].0@ && out@[(j - 1)
                        + 1].1@ == self.params@[j - 1].1@);
                }
            }
            assert(lhs =~= rhs);
        }
        out
    }
}

/// Builds a `POST` request against `url` carrying the token and the given
/// parameters as its form body.
pub(crate) fn post_form(url: &str, access_token: &str, params: &Vec<(String, String)>) -> (r:
    HttpRequest)
    ensures
        r.method == Method::Post,
        r.url@ == url@,
        r.body matches Some(b) && b@ == form_encoded(
            spec_with_token(access_token@, string_pairs_view(params@)),
        ),
{
    let wrapped = WithAccessToken::new(access_token, params);
    let pairs = wrapped.pairs();
    HttpRequest { method: Method::Post, url: String::from_str(url), body: Some(
        encode_form(&pairs),
    ) }
}

} // verus!
