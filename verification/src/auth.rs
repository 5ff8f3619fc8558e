//! The authentication endpoints: fetching a session token and signing in
//! with credentials. The password is hashed before it is placed in the
//! request, so the plaintext never reaches the wire, and the credentials
//! render with the secrets redacted.

use vstd::prelude::*;
use vstd::string::StringExecFns;

use crate::digits::{dec_digits, u64_to_string};
use crate::error::{spec_classify, Error, ErrorV};
use crate::hash::{md5_hex, serialize_md5};
use crate::json::{
    get_str_field, json_err_path, obj_entries, object_entries, parse_json, parsed_json, str_field,
};
use crate::request::{
    form_encoded, post_form, spec_with_token, string_pairs_view, HttpRequest, Method,
};

verus! {

/// What a caller supplies to sign in. The password is held in the clear
/// here, used once to build the sign-in request in hashed form, and always
/// rendered redacted.
pub struct Credentials {
    /// The club's number; only needed when the user exists in more than
    /// one club.
    pub club_id: Option<u32>,
    /// The application key.
    pub app_key: String,
    /// The username or email address.
    pub username: String,
    /// The plaintext password; transmitted only as its MD5 hex digest.
    pub password: String,
    /// The second factor, where the account has one.
    pub auth_secret: Option<String>,
}

/// The sign-in parameters as they go on the wire, before the token is
/// prepended: the optional club id, the application key, the username, the
/// hashed password, and the optional second factor. Absent optional fields
/// are omitted entirely.
pub open spec fn spec_credentials_params(c: Credentials) -> Seq<(Seq<char>, Seq<char>)> {
    (match c.club_id {
        Some(n) => seq![("cid"@, dec_digits(n as nat))],
        None => Seq::<(Seq<char>, Seq<char>)>::empty(),
    }) + seq![
        ("appkey"@, c.app_key@),
        ("username"@, c.username@),
        ("password"@, md5_hex(c.password@)),
    ] + (match c.auth_secret {
        Some(s) => seq![("auth_secret"@, s@)],
        None => Seq::<(Seq<char>, Seq<char>)>::empty(),
    })
}

/// The full ordered mapping of a sign-in request: the token, then the
/// credentials' parameters.
pub open spec fn spec_sign_in_pairs(token: Seq<char>, c: Credentials) -> Seq<
    (Seq<char>, Seq<char>),
> {
    spec_with_token(token, spec_credentials_params(c))
}

impl Credentials {
    /// Builds the wire parameters: club id as decimal where given, the
    /// password as its hash, absent optional fields omitted.
    pub fn params(&self) -> (r: Vec<(String, String)>)
        ensures
            string_pairs_view(r@) == spec_credentials_params(*self),
    {
        let mut out: Vec<(String, String)> = Vec::new();
        match &self.club_id {
            Some(n) => {
                out.push((String::from_str("cid"), u64_to_string(*n as u64)));
            },
            None => {},
        }
        out.push((String::from_str("appkey"), self.app_key.clone()));
        out.push((String::from_str("username"), self.username.clone()));
        out.push((String::from_str("password"), serialize_md5(self.password.as_str())));
        match &self.auth_secret {
            Some(s) => {
                out.push((String::from_str("auth_secret"), s.clone()));
            },
            None => {},
        }
        proof {
            assert(string_pairs_view(out@) =~= spec_credentials_params(*self));
        }
        out
    }

    /// The rendering used wherever the credentials are printed: the
    /// password and the second factor always appear as a fixed placeholder,
    /// never their values.
    pub fn debug_string(&self) -> (r: String)
        ensures
            r@ == spec_credentials_debug(*self),
    {
        let mut s = String::from_str("Credentials { club_id: ");
        match &self.club_id {
            Some(n) => {
                s.append("Some(");
                let d = u64_to_string(*n as u64);
                s.append(d.as_str());
                s.append(")");
            },
            None => {
                s.append("None");
            },
        }
        s.append(", app_key: \"");
        s.append(self.app_key.as_str());
        s.append("\", username: \"");
        s.append(self.username.as_str());
        s.append("\", password: \"********\", auth_secret: \"********\" }");
        proof {
            assert(s@ =~= spec_credentials_debug(*self));
        }
        s
    }
}

/// The redacted rendering of credentials: every field as it is, except that
/// the password and the second factor are replaced by a placeholder.
pub open spec fn spec_credentials_debug(c: Credentials) -> Seq<char> {
    "Credentials { club_id: "@ + (match c.club_id {
        Some(n) => "Some("@ + dec_digits(n as nat) + ")"@,
        None => "None"@,
    }) + ", app_key: \""@ + c.app_key@ + "\", username: \""@ + c.username@
        + "\", password: \"********\", auth_secret: \"********\" }"@
}

/// The password travels only in hashed form. Whatever the credentials,
/// the value under the `password` key of the sign-in mapping is the MD5
/// hex digest of the plaintext; and as long as the plaintext does not
/// happen to coincide with one of the other transmitted values — the
/// token, the app key, the username, the club id's decimal rendering, the
/// second factor, or its own digest — the plaintext is no value of the
/// mapping at all.
pub proof fn lemma_password_only_hashed(token: Seq<char>, c: Credentials)
    ensures
        forall|i: int|
            0 <= i < spec_sign_in_pairs(token, c).len() && (#[trigger] spec_sign_in_pairs(
                token,
                c,
            )[i]).0 == "password"@ ==> spec_sign_in_pairs(token, c)[i].1 == md5_hex(c.password@),
        (c.password@ != token && c.password@ != c.app_key@ && c.password@ != c.username@ && (
        c.club_id is Some ==> c.password@ != dec_digits(c.club_id->0 as nat)) && (
        c.auth_secret is Some ==> c.password@ != c.auth_secret->0@) && c.password@ != md5_hex(
            c.password@,
        )) ==> forall|i: int|
            0 <= i < spec_sign_in_pairs(token, c).len() ==> (#[trigger] spec_sign_in_pairs(
                token,
                c,
            )[i]).1 != c.password@,
{
    reveal_strlit("accesstoken");
    reveal_strlit("cid");
    reveal_strlit("appkey");
    reveal_strlit("username");
    reveal_strlit("password");
    reveal_strlit("auth_secret");
    assert("password"@.len() == 8);
    assert("accesstoken"@ != "password"@) by {
        assert("accesstoken"@.len() == 11);
    }
    assert("cid"@ != "password"@) by {
        assert("cid"@.len() == 3);
    }
    assert("appkey"@ != "password"@) by {
        assert("appkey"@.len() == 6);
    }
    assert("username"@ != "password"@) by {
        assert("username"@[0] == 'u' && "password"@[0] == 'p');
    }
    assert("auth_secret"@ != "password"@) by {
        assert("auth_secret"@.len() == 11);
    }
    let ps = spec_sign_in_pairs(token, c);
    let head = ("accesstoken"@, token);
    let key = ("appkey"@, c.app_key@);
    let name = ("username"@, c.username@);
    let pw = ("password"@, md5_hex(c.password@));
    match (c.club_id, c.auth_secret) {
        (Some(n), Some(s)) => {
            assert(ps =~= seq![head, ("cid"@, dec_digits(n as nat)), key, name, pw, (
                "auth_secret"@,
                s@,
            )]);
        },
        (Some(n), None) => {
            assert(ps =~= seq![head, ("cid"@, dec_digits(n as nat)), key, name, pw]);
        },
        (None, Some(s)) => {
            assert(ps =~= seq![head, key, name, pw, ("auth_secret"@, s@)]);
        },
        (None, None) => {
            assert(ps =~= seq![head, key, name, pw]);
        },
    }
}

/// Builds the bodyless `GET` that fetches a fresh session token.
pub fn get_access_token_request() -> (r: HttpRequest)
    ensures
        r.method == Method::Get,
        r.url@ == "https://www.vereinsflieger.de/interface/rest/auth/accesstoken"@,
        r.body is None,
{
    HttpRequest {
        method: Method::Get,
        url: String::from_str("https://www.vereinsflieger.de/interface/rest/auth/accesstoken"),
        body: None,
    }
}

/// The token in a token-endpoint response body: the body parsed as a JSON
/// object with a string under the key `accesstoken`.
pub open spec fn spec_access_token_field(body: Seq<u8>) -> Option<Seq<char>> {
    match parsed_json(body) {
        Some(doc) => match obj_entries(doc) {
            Some(entries) => str_field(entries, "accesstoken"@),
            None => None,
        },
        None => None,
    }
}

/// What fetching a session token yields for a given HTTP outcome: the
/// classifier's error if the outcome classifies as a failure; otherwise the
/// token out of the body, or a path-carrying decoding error.
pub open spec fn spec_get_access_token(status: u16, body: Seq<u8>) -> Result<Seq<char>, ErrorV> {
    match spec_classify(status, body) {
        Ok(_) => {
            if parsed_json(body) is None {
                Err(ErrorV::DeserializationFailed { path: json_err_path(body) })
            } else if spec_access_token_field(body) is Some {
                Ok(spec_access_token_field(body)->0)
            } else {
                Err(ErrorV::DeserializationFailed { path: "accesstoken"@ })
            }
        },
        Err(e) => Err(e),
    }
}

/// Reads the token endpoint's outcome: the new session token on success,
/// exactly as [`spec_get_access_token`] says.
pub fn get_access_token_response(status: u16, body: &Vec<u8>) -> (r: Result<String, Error>)
    ensures
        r is Ok <==> spec_get_access_token(status, body@) is Ok,
        r matches Ok(t) ==> t@ == spec_get_access_token(status, body@)->Ok_0,
        r matches Err(e) ==> e@ == spec_get_access_token(status, body@)->Err_0,
{
    match crate::error::error_for_status(status, body) {
        Ok(_) => {},
        Err(e) => {
            return Err(e);
        },
    }
    let doc = match parse_json(body.as_slice()) {
        Ok(doc) => doc,
        Err(path) => {
            return Err(Error::DeserializationFailed { path });
        },
    };
    let token = match object_entries(&doc) {
        Some(entries) => get_str_field(&entries, "accesstoken"),
        None => None,
    };
    match token {
        Some(t) => Ok(t),
        None => Err(
            Error::DeserializationFailed { path: String::from_str("accesstoken") },
        ),
    }
}

/// Builds the sign-in `POST`: the held token merged with the credentials'
/// parameters, the password already hashed.
pub fn authenticate_request(access_token: &str, credentials: &Credentials) -> (r: HttpRequest)
    ensures
        r.method == Method::Post,
        r.url@ == "https://www.vereinsflieger.de/interface/rest/auth/signin"@,
        r.body matches Some(b) && b@ == form_encoded(
            spec_sign_in_pairs(access_token@, *credentials),
        ),
{
    let params = credentials.params();
    post_form("https://www.vereinsflieger.de/interface/rest/auth/signin", access_token, &params)
}

/// Reads the sign-in outcome. Success yields nothing: the service does not
/// issue a new token on sign-in, the held token simply becomes
/// authenticated.
pub fn authenticate_response(status: u16, body: &Vec<u8>) -> (r: Result<(), Error>)
    ensures
        r is Ok <==> spec_classify(status, body@) is Ok,
        r matches Err(e) ==> e@ == spec_classify(status, body@)->Err_0,
{
    crate::error::error_for_status(status, body)
}

} // verus!
