//! The codec utilities: password hashing, HTML-entity unescaping and
//! decimal rendering.

use vereinsflieger::{serialize_md5, u64_to_string, unescape, unescape_vec};

#[test]
fn md5_known_digests() {
    assert_eq!(serialize_md5("password"), "5f4dcc3b5aa765d61d8327deb882cf99");
    assert_eq!(serialize_md5(""), "d41d8cd98f00b204e9800998ecf8427e");
    assert_eq!(serialize_md5("hunter2"), "2ab96390c7dbe3439de74d0c9b0b1767");
}

#[test]
fn md5_is_deterministic() {
    let a = serialize_md5("same input");
    let b = serialize_md5("same input");
    assert_eq!(a, b);
}

#[test]
fn md5_shape_is_32_lowercase_hex() {
    for input in ["", "a", "Stra\u{00df}e", "some longer input with spaces"] {
        let h = serialize_md5(input);
        assert_eq!(h.len(), 32);
        assert!(h.chars().all(|c| c.is_ascii_hexdigit() && !c.is_ascii_uppercase()));
    }
}

#[test]
fn unescape_decodes_entities() {
    assert_eq!(unescape("Caf&eacute; &amp; Bar"), "Caf\u{00e9} & Bar");
}

#[test]
fn unescape_is_idempotent_on_decoded_text() {
    let once = unescape("Caf&eacute; &amp; Bar");
    assert_eq!(unescape(&once), once);
}

#[test]
fn unescape_leaves_plain_text_alone() {
    assert_eq!(unescape("nothing to decode"), "nothing to decode");
    assert_eq!(unescape(""), "");
}

#[test]
fn unescape_vec_decodes_each_element() {
    let input = vec![
        "R&ouml;he".to_string(),
        "plain".to_string(),
        "&lt;tag&gt;".to_string(),
    ];
    let out = unescape_vec(&input);
    assert_eq!(out, vec!["R\u{00f6}he".to_string(), "plain".to_string(), "<tag>".to_string()]);
}

#[test]
fn decimal_rendering() {
    assert_eq!(u64_to_string(0), "0");
    assert_eq!(u64_to_string(7), "7");
    assert_eq!(u64_to_string(207), "207");
    assert_eq!(u64_to_string(18446744073709551615), "18446744073709551615");
}
