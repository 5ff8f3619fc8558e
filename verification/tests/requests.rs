//! Request building: the token is merged with each endpoint's parameters
//! into one flat form-encoded mapping, passwords travel hashed, and absent
//! optional fields stay off the wire.

use vereinsflieger::{
    add_sale_request, authenticate_request, get_access_token_request, list_articles_request,
    list_users_request, Credentials, Method, NewSale, WithAccessToken,
};

#[test]
fn token_fetch_is_a_bare_get() {
    let r = get_access_token_request();
    assert_eq!(r.method, Method::Get);
    assert_eq!(r.url, "https://www.vereinsflieger.de/interface/rest/auth/accesstoken");
    assert!(r.body.is_none());
}

#[test]
fn sign_in_form_hashes_the_password() {
    let credentials = Credentials {
        club_id: Some(123),
        app_key: "key".to_string(),
        username: "user".to_string(),
        password: "hunter2".to_string(),
        auth_secret: None,
    };
    let r = authenticate_request("T", &credentials);
    assert_eq!(r.method, Method::Post);
    assert_eq!(r.url, "https://www.vereinsflieger.de/interface/rest/auth/signin");
    let body = r.body.expect("sign-in posts a form");
    assert_eq!(
        body,
        "accesstoken=T&cid=123&appkey=key&username=user&password=2ab96390c7dbe3439de74d0c9b0b1767"
    );
    assert!(!body.contains("hunter2"));
}

#[test]
fn sign_in_form_omits_absent_optionals_and_keeps_present_ones() {
    let credentials = Credentials {
        club_id: None,
        app_key: "k".to_string(),
        username: "u".to_string(),
        password: "password".to_string(),
        auth_secret: Some("otp".to_string()),
    };
    let body = authenticate_request("tok", &credentials).body.unwrap();
    assert_eq!(
        body,
        "accesstoken=tok&appkey=k&username=u&password=5f4dcc3b5aa765d61d8327deb882cf99&auth_secret=otp"
    );
    assert!(!body.contains("cid"));
}

#[test]
fn listing_requests_carry_only_the_token() {
    let r = list_users_request("T");
    assert_eq!(r.method, Method::Post);
    assert_eq!(r.url, "https://www.vereinsflieger.de/interface/rest/user/list");
    assert_eq!(r.body.unwrap(), "accesstoken=T");

    let r = list_articles_request("T");
    assert_eq!(r.url, "https://www.vereinsflieger.de/interface/rest/articles/list");
    assert_eq!(r.body.unwrap(), "accesstoken=T");
}

fn minimal_sale() -> NewSale {
    NewSale {
        booking_date: "2025-01-14".to_string(),
        article_id: "Lebensmittel".to_string(),
        amount: "3".to_string(),
        member_id: None,
        callsign: None,
        sales_tax: None,
        total_price: None,
        counter: None,
        comment: None,
        cost_type: None,
        caid2: None,
        spid: None,
    }
}

#[test]
fn minimal_sale_form_holds_only_required_fields() {
    let r = add_sale_request("T", &minimal_sale());
    assert_eq!(r.method, Method::Post);
    assert_eq!(r.url, "https://www.vereinsflieger.de/interface/rest/sale/add");
    let body = r.body.unwrap();
    assert_eq!(body, "accesstoken=T&bookingdate=2025-01-14&articleid=Lebensmittel&amount=3");
    for absent in ["memberid", "callsign", "salestax", "totalprice", "counter", "comment",
        "costtype", "caid2", "spid"] {
        assert!(!body.contains(absent));
    }
}

#[test]
fn present_sale_optionals_appear_in_order() {
    let mut sale = minimal_sale();
    sale.member_id = Some(11011);
    sale.callsign = Some("a b".to_string());
    sale.total_price = Some("42.15".to_string());
    let body = add_sale_request("T", &sale).body.unwrap();
    assert_eq!(
        body,
        "accesstoken=T&bookingdate=2025-01-14&articleid=Lebensmittel&amount=3&memberid=11011&callsign=a+b&totalprice=42.15"
    );
}

#[test]
fn form_encoding_escapes_values() {
    let mut sale = minimal_sale();
    sale.comment = Some("f\u{00fc}r & mit".to_string());
    let body = add_sale_request("T", &sale).body.unwrap();
    assert!(body.ends_with("&comment=f%C3%BCr+%26+mit"));
}

#[test]
fn with_access_token_prepends_the_token() {
    let params = vec![("a".to_string(), "1".to_string()), ("b".to_string(), "2".to_string())];
    let wrapped = WithAccessToken::new("tok", &params);
    let pairs = wrapped.pairs();
    assert_eq!(
        pairs,
        vec![
            ("accesstoken".to_string(), "tok".to_string()),
            ("a".to_string(), "1".to_string()),
            ("b".to_string(), "2".to_string()),
        ]
    );
}

#[test]
fn credentials_render_redacted() {
    let credentials = Credentials {
        club_id: Some(123),
        app_key: "key".to_string(),
        username: "user".to_string(),
        password: "hunter2".to_string(),
        auth_secret: Some("otp".to_string()),
    };
    let rendered = credentials.debug_string();
    assert_eq!(
        rendered,
        "Credentials { club_id: Some(123), app_key: \"key\", username: \"user\", \
         password: \"********\", auth_secret: \"********\" }"
    );
    assert!(!rendered.contains("hunter2"));
    assert!(!rendered.contains("otp"));
}

#[test]
fn credentials_render_without_club_id() {
    let credentials = Credentials {
        club_id: None,
        app_key: "k".to_string(),
        username: "u".to_string(),
        password: "p".to_string(),
        auth_secret: None,
    };
    assert_eq!(
        credentials.debug_string(),
        "Credentials { club_id: None, app_key: \"k\", username: \"u\", \
         password: \"********\", auth_secret: \"********\" }"
    );
}
