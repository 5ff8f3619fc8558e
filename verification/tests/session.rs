//! The session lifecycle: no token, token, authenticated — and the token's
//! identity across sign-in.

use vereinsflieger::{
    access_token_request, get_access_token_response, session_from_token_response, Credentials,
    Error, Method,
};

fn credentials() -> Credentials {
    Credentials {
        club_id: Some(1),
        app_key: "key".to_string(),
        username: "user".to_string(),
        password: "password".to_string(),
        auth_secret: None,
    }
}

#[test]
fn token_fetch_yields_the_issued_token() {
    let r = access_token_request();
    assert_eq!(r.method, Method::Get);
    let token = get_access_token_response(200, &br#"{"accesstoken":"abc123"}"#.to_vec())
        .expect("the token decodes");
    assert_eq!(token, "abc123");
}

#[test]
fn token_fetch_failure_leaves_no_session() {
    let r = session_from_token_response(500, &b"oops".to_vec());
    assert!(matches!(r, Err(Error::RequestFailed { status: 500, .. })));
    let r = session_from_token_response(200, &br#"{"unexpected":true}"#.to_vec());
    match r {
        Err(Error::DeserializationFailed { path }) => assert_eq!(path, "accesstoken"),
        _ => panic!("expected a decoding failure"),
    }
}

#[test]
fn sign_in_preserves_the_token() {
    let session = session_from_token_response(200, &br#"{"accesstoken":"abc123"}"#.to_vec())
        .expect("a session forms");
    assert_eq!(session.access_token(), "abc123");
    let authenticated = session
        .sign_in_response(200, &br#"{"success":true}"#.to_vec())
        .expect("sign-in succeeds");
    assert_eq!(authenticated.access_token(), "abc123");
}

#[test]
fn failed_sign_in_keeps_the_session_usable() {
    let session = session_from_token_response(200, &br#"{"accesstoken":"t"}"#.to_vec()).unwrap();
    let r = session.sign_in_response(401, &br#"{"error":"Unauthorized"}"#.to_vec());
    assert!(matches!(r, Err(Error::Unauthorized)));
    // The token-holding session is still there for another attempt.
    let retry = session.sign_in_request(&credentials());
    assert_eq!(retry.method, Method::Post);
    let authenticated = session.sign_in_response(200, &b"{}".to_vec()).unwrap();
    assert_eq!(authenticated.access_token(), "t");
}

#[test]
fn sign_in_request_carries_the_held_token() {
    let session = session_from_token_response(200, &br#"{"accesstoken":"tok7"}"#.to_vec()).unwrap();
    let r = session.sign_in_request(&credentials());
    let body = r.body.unwrap();
    assert!(body.starts_with("accesstoken=tok7&"));
    assert!(!body.contains("password=password"));
}

#[test]
fn authenticated_operations_attach_the_token() {
    let session = session_from_token_response(200, &br#"{"accesstoken":"T9"}"#.to_vec()).unwrap();
    let authenticated = session.sign_in_response(200, &b"{}".to_vec()).unwrap();

    let users = authenticated.list_users_request();
    assert_eq!(users.body.unwrap(), "accesstoken=T9");

    let articles = authenticated.list_articles_request();
    assert_eq!(articles.body.unwrap(), "accesstoken=T9");

    let sale = vereinsflieger::NewSale {
        booking_date: "2025-01-14".to_string(),
        article_id: "X".to_string(),
        amount: "1".to_string(),
        member_id: None,
        callsign: None,
        sales_tax: None,
        total_price: None,
        counter: None,
        comment: None,
        cost_type: None,
        caid2: None,
        spid: None,
    };
    let add = authenticated.add_sale_request(&sale);
    assert!(add.body.unwrap().starts_with("accesstoken=T9&bookingdate=2025-01-14"));
}

#[test]
fn authenticated_responses_classify_like_every_endpoint() {
    let session = session_from_token_response(200, &br#"{"accesstoken":"T"}"#.to_vec()).unwrap();
    let authenticated = session.sign_in_response(200, &b"{}".to_vec()).unwrap();
    let r = authenticated.add_sale_response(403, &br#"{"error":"Something"}"#.to_vec());
    assert!(matches!(r, Err(Error::RequestFailed { status: 403, .. })));
    assert!(authenticated.add_sale_response(200, &b"{}".to_vec()).is_ok());
    let r = authenticated.list_users_response(401, &br#"{"error":"Unauthorized"}"#.to_vec());
    assert!(matches!(r, Err(Error::Unauthorized)));
}
