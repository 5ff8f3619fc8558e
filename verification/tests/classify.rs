//! The response classifier: the service reuses generic statuses and names
//! the true condition only in the error body.

use vereinsflieger::{error_for_status, Error};

fn body(text: &str) -> Vec<u8> {
    text.as_bytes().to_vec()
}

#[test]
fn success_statuses_pass() {
    assert!(error_for_status(200, &Vec::new()).is_ok());
    assert!(error_for_status(201, &body("{}")).is_ok());
    assert!(error_for_status(302, &Vec::new()).is_ok());
}

#[test]
fn unauthorized_is_recognized() {
    let r = error_for_status(401, &body(r#"{"error":"Unauthorized"}"#));
    assert!(matches!(r, Err(Error::Unauthorized)));
}

#[test]
fn other_401_bodies_stay_plain_failures() {
    let r = error_for_status(401, &body(r#"{"error":"Something else"}"#));
    assert!(matches!(r, Err(Error::RequestFailed { status: 401, .. })));
    let r = error_for_status(401, &body("not json"));
    assert!(matches!(r, Err(Error::RequestFailed { status: 401, .. })));
}

#[test]
fn rate_limit_is_recognized() {
    let msg = r#"{"error":"Die maximale Anzahl der Requests pro Tag ist überschritten!"}"#;
    let r = error_for_status(403, &body(msg));
    assert!(matches!(r, Err(Error::TooManyRequests)));
}

#[test]
fn other_403_bodies_stay_plain_failures() {
    let r = error_for_status(403, &body(r#"{"error":"Something else"}"#));
    assert!(matches!(r, Err(Error::RequestFailed { status: 403, .. })));
    // The right message under the wrong status is not a rate limit either.
    let msg = r#"{"error":"Die maximale Anzahl der Requests pro Tag ist überschritten!"}"#;
    let r = error_for_status(404, &body(msg));
    assert!(matches!(r, Err(Error::RequestFailed { status: 404, .. })));
}

#[test]
fn unauthorized_string_under_403_is_not_unauthorized() {
    let r = error_for_status(403, &body(r#"{"error":"Unauthorized"}"#));
    assert!(matches!(r, Err(Error::RequestFailed { status: 403, .. })));
}

#[test]
fn plain_error_statuses_keep_status_and_body() {
    let r = error_for_status(500, &body("oops"));
    match r {
        Err(Error::RequestFailed { status, body }) => {
            assert_eq!(status, 500);
            assert_eq!(body, b"oops".to_vec());
        },
        _ => panic!("expected a request failure"),
    }
}

#[test]
fn error_messages() {
    assert_eq!(
        Error::Unauthorized.message(),
        "The request used an invalid access token or was not authenticated"
    );
    assert_eq!(
        Error::TooManyRequests.message(),
        "The maximum number of requests has been exceeded"
    );
}
