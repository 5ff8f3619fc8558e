//! HTML-entity unescaping. Free-text fields arrive from the service with
//! HTML character entities, and must be decoded before they reach the caller.

use vstd::prelude::*;

verus! {

/// The HTML-entity decoding of a character sequence, as computed by
/// `html_escape::decode_html_entities`. The result depends on the input
/// characters alone.
pub uninterp spec fn html_unescaped(s: Seq<char>) -> Seq<char>;

/// Decodes the HTML character entities in one string.
///
/// Relies on `html_escape::decode_html_entities`: a pure function of the
/// input text.
#[verifier::external_body]
pub fn unescape(s: &str) -> (r: String)
    ensures
        r@ == html_unescaped(s@),
{
    html_escape::decode_html_entities(s).into_owned()
}

/// Decodes the HTML character entities in every element of a sequence of
/// strings, element by element.
pub fn unescape_vec(v: &Vec<String>) -> (r: Vec<String>)
    ensures
        r@.len() == v@.len(),
        forall|i: int| 0 <= i < v@.len() ==> (#[trigger] r@[i])@ == html_unescaped(v@[i]@),
{
    let mut out: Vec<String> = Vec::new();
    let n = v.len();
    for i in 0..n
        invariant
            n == v@.len(),
            out@.len() == i,
            forall|j: int| 0 <= j < i ==> (#[trigger] out@[j])@ == html_unescaped(v@[j]@),
    {
        out.push(unescape(v[i].as_str()));
    }
    out
}

} // verus!
