//! The listing endpoints: numeric-keyed objects standing in for arrays,
//! metadata keys, ordering, unescaping and decode failures.

use vereinsflieger::{list_articles_response, list_users_response, Error};

/// A complete user record, with a few fields carrying entities or
/// distinguishing values.
fn user_json(uid: &str, first_name: &str) -> String {
    let mut s = String::new();
    s.push_str(&format!(r#"{{"uid":"{uid}","title":"Dr.","firstname":"{first_name}","#));
    s.push_str(r#""lastname":"M&uuml;ller","nickname":"","gender":"m","#);
    s.push_str(r#""street":"Hauptstra&szlig;e 1","postofficebox":"","careof":"","#);
    s.push_str(r#""zipcode":"12345","town":"Berlin","country":"DE","#);
    s.push_str(r#""birthday":"01.01.1990","birthplace":"","email":"a&amp;b@example.com","#);
    s.push_str(r#""homenumber":"","mobilenumber":"","phonenumber":"","phonenumber2":"","#);
    s.push_str(r#""carlicenseplate":"","identification":"","natoid":"","#);
    s.push_str(r#""policecert_validto":"","ice_contact1":"","ice_contact2":"","#);
    s.push_str(r#""memberid":"42","memberbegin":"","memberend":"","#);
    s.push_str(r#""memberstatus":"Aktiv","lettertitle":"","mailrecipient":"1","#);
    s.push_str(r#""educations":["Kurs &amp; Co"],"roles":["Vorstand"],"sector":[],"#);
    s.push_str(r#""functions":[],"keymanagement":[{"title":"Halle &amp; Tor","keyname":"K1"}]}"#);
    s
}

#[test]
fn users_decode_with_unescaped_fields() {
    let body = format!(r#"{{"0":{}}}"#, user_json("1", "Max")).into_bytes();
    let users = list_users_response(200, &body).expect("one user decodes");
    assert_eq!(users.len(), 1);
    let u = &users[0];
    assert_eq!(u.user_id, "1");
    assert_eq!(u.first_name, "Max");
    assert_eq!(u.last_name, "M\u{00fc}ller");
    assert_eq!(u.street, "Hauptstra\u{00df}e 1");
    assert_eq!(u.email, "a&b@example.com");
    assert_eq!(u.birthday, "01.01.1990");
    assert_eq!(u.member_id, "42");
    assert_eq!(u.educations, vec!["Kurs & Co".to_string()]);
    assert_eq!(u.roles, vec!["Vorstand".to_string()]);
    assert!(u.sector.is_empty());
    assert_eq!(u.keymanagement.len(), 1);
    assert_eq!(u.keymanagement[0].title, "Halle & Tor");
    assert_eq!(u.keymanagement[0].name, "K1");
}

#[test]
fn metadata_keys_are_ignored_in_any_order() {
    let u0 = user_json("10", "First");
    let u1 = user_json("11", "Second");
    let orders = [
        format!(r#"{{"0":{u0},"1":{u1},"metadata":{{"count":2}}}}"#),
        format!(r#"{{"metadata":{{"count":2}},"1":{u1},"0":{u0}}}"#),
        format!(r#"{{"1":{u1},"metadata":{{"count":2}},"0":{u0}}}"#),
    ];
    for body in orders {
        let users = list_users_response(200, &body.into_bytes()).expect("two users decode");
        assert_eq!(users.len(), 2);
        assert_eq!(users[0].user_id, "10");
        assert_eq!(users[1].user_id, "11");
    }
}

#[test]
fn records_come_back_in_numeric_order() {
    let body = format!(
        r#"{{"10":{},"2":{},"+1":{}}}"#,
        user_json("ten", "A"),
        user_json("two", "B"),
        user_json("one", "C"),
    )
    .into_bytes();
    let users = list_users_response(200, &body).unwrap();
    assert_eq!(users.len(), 3);
    assert_eq!(users[0].user_id, "one");
    assert_eq!(users[1].user_id, "two");
    assert_eq!(users[2].user_id, "ten");
}

#[test]
fn an_empty_object_lists_nothing() {
    let users = list_users_response(200, &b"{}".to_vec()).unwrap();
    assert!(users.is_empty());
    let body = br#"{"metadata":{"count":0}}"#.to_vec();
    let users = list_users_response(200, &body).unwrap();
    assert!(users.is_empty());
}

#[test]
fn leading_zero_keys_share_an_index_and_keep_object_order() {
    // "0" and "00" both parse as index zero; the object's own (sorted)
    // order decides between them.
    let body = format!(r#"{{"00":{},"0":{}}}"#, user_json("second", "B"), user_json("first", "A"))
        .into_bytes();
    let users = list_users_response(200, &body).unwrap();
    assert_eq!(users.len(), 2);
    assert_eq!(users[0].user_id, "first");
    assert_eq!(users[1].user_id, "second");
}

#[test]
fn oversized_keys_are_discarded() {
    let body = format!(
        r#"{{"99999999999999999999":{{"junk":true}},"0":{}}}"#,
        user_json("1", "Max"),
    )
    .into_bytes();
    let users = list_users_response(200, &body).unwrap();
    assert_eq!(users.len(), 1);
}

#[test]
fn a_failing_record_aborts_the_listing() {
    let mut broken = user_json("1", "Max");
    broken = broken.replace(r#""uid":"1","#, "");
    let body = format!(r#"{{"0":{broken}}}"#).into_bytes();
    match list_users_response(200, &body) {
        Err(Error::DeserializationFailed { path }) => assert_eq!(path, "uid"),
        _ => panic!("expected a decoding failure"),
    }
}

#[test]
fn a_non_object_body_is_a_decoding_failure() {
    let r = list_users_response(200, &b"[1,2,3]".to_vec());
    assert!(matches!(r, Err(Error::DeserializationFailed { .. })));
    let r = list_users_response(200, &b"not json".to_vec());
    assert!(matches!(r, Err(Error::DeserializationFailed { .. })));
}

#[test]
fn listing_routes_through_the_classifier() {
    let r = list_users_response(401, &br#"{"error":"Unauthorized"}"#.to_vec());
    assert!(matches!(r, Err(Error::Unauthorized)));
}

fn article_json(id: &str, with_description: bool) -> String {
    let mut s = String::new();
    s.push_str(&format!(r#"{{"articleid":"{id}","designation":"Fl&uuml;ge","#));
    if with_description {
        s.push_str(r#""description":"G&uuml;nstig","#);
    }
    s.push_str(r#""unittype":"Stk","costtype":"Theke","spid":"2","account":"8400","#);
    s.push_str(r#""prices":[{"validfrom":"2024-01-01","validto":"2024-12-31","#);
    s.push_str(r#""salestax":"19.00","unitprice":"3.50"}]}"#);
    s
}

#[test]
fn articles_decode_with_prices() {
    let body = format!(r#"{{"0":{}}}"#, article_json("A1", true)).into_bytes();
    let articles = list_articles_response(200, &body).expect("one article decodes");
    assert_eq!(articles.len(), 1);
    let a = &articles[0];
    assert_eq!(a.article_id, "A1");
    assert_eq!(a.designation, "Fl\u{00fc}ge");
    assert_eq!(a.description, "G\u{00fc}nstig");
    assert_eq!(a.unit_type, "Stk");
    assert_eq!(a.prices.len(), 1);
    assert_eq!(a.prices[0].valid_from, "2024-01-01");
    assert_eq!(a.prices[0].unit_price, "3.50");
}

#[test]
fn a_missing_description_decodes_empty() {
    let body = format!(r#"{{"0":{}}}"#, article_json("A1", false)).into_bytes();
    let articles = list_articles_response(200, &body).unwrap();
    assert_eq!(articles[0].description, "");
}

#[test]
fn articles_with_metadata_in_two_orders() {
    let a0 = article_json("first", true);
    let a1 = article_json("second", true);
    for body in [
        format!(r#"{{"metadata":[],"0":{a0},"1":{a1}}}"#),
        format!(r#"{{"1":{a1},"0":{a0},"metadata":[]}}"#),
    ] {
        let articles = list_articles_response(200, &body.into_bytes()).unwrap();
        assert_eq!(articles.len(), 2);
        assert_eq!(articles[0].article_id, "first");
        assert_eq!(articles[1].article_id, "second");
    }
}

#[test]
fn a_broken_price_names_its_path() {
    let article = article_json("A1", true).replace(r#""unitprice":"3.50""#, r#""unitprice":7"#);
    let body = format!(r#"{{"0":{article}}}"#).into_bytes();
    match list_articles_response(200, &body) {
        Err(Error::DeserializationFailed { path }) => assert_eq!(path, "prices[0].unitprice"),
        _ => panic!("expected a decoding failure"),
    }
}
