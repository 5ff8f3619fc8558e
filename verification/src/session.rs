//! The session lifecycle. A session advances from holding no token,
//! through holding a fresh token, to authenticated — and never backwards.
//! Each phase is its own type: a privileged request cannot be built
//! without an [`AuthenticatedSession`], and the only way to one leads
//! through a successful sign-in, so calling a privileged operation before
//! authentication is a type error, not a runtime surprise.

use vstd::prelude::*;

use crate::article::{list_articles_response, Article};
use crate::auth::{
    authenticate_request, authenticate_response, get_access_token_request,
    get_access_token_response, spec_get_access_token, spec_sign_in_pairs, Credentials,
};
use crate::error::{spec_classify, Error, ErrorV};
use crate::request::{form_encoded, spec_with_token, HttpRequest, Method};
use crate::sale::{add_sale_request, add_sale_response, spec_sale_params, NewSale};
use crate::user::{list_users_response, User};

verus! {

/// A session that holds a fresh token but is not yet signed in. The only
/// operations it offers are reading the token and signing in.
pub struct Session {
    token: String,
}

/// A session whose token has been authenticated. Only a value of this type
/// can build the privileged listing and sale requests; it arises only from
/// [`Session::sign_in_response`].
pub struct AuthenticatedSession {
    token: String,
}

impl Session {
    /// The token this session holds.
    pub closed spec fn spec_token(&self) -> Seq<char> {
        self.token@
    }

    /// Reads the held token, for callers that only need a bare token.
    pub fn access_token(&self) -> (r: &str)
        ensures
            r@ == self.spec_token(),
    {
        self.token.as_str()
    }

    /// Builds the sign-in request for this session's token: the token
    /// merged with the credentials' parameters, the password hashed.
    pub fn sign_in_request(&self, credentials: &Credentials) -> (r: HttpRequest)
        ensures
            r.method == Method::Post,
            r.url@ == "https://www.vereinsflieger.de/interface/rest/auth/signin"@,
            r.body matches Some(b) && b@ == form_encoded(
                spec_sign_in_pairs(self.spec_token(), *credentials),
            ),
    {
        authenticate_request(self.token.as_str(), credentials)
    }

    /// Applies the sign-in outcome. On success the session becomes
    /// authenticated and carries this session's token forward unchanged:
    /// the service issues no new token on sign-in. On failure this session
    /// stays usable, so the caller may retry with other credentials.
    pub fn sign_in_response(&self, status: u16, body: &Vec<u8>) -> (r: Result<
        AuthenticatedSession,
        Error,
    >)
        ensures
            r is Ok <==> spec_classify(status, body@) is Ok,
            r matches Ok(a) ==> a.spec_token() == self.spec_token(),
            r matches Err(e) ==> e@ == spec_classify(status, body@)->Err_0,
    {
        match authenticate_response(status, body) {
            Ok(_) => Ok(AuthenticatedSession { token: self.token.clone() }),
            Err(e) => Err(e),
        }
    }
}

impl AuthenticatedSession {
    /// The token this session holds.
    pub closed spec fn spec_token(&self) -> Seq<char> {
        self.token@
    }

    /// Reads the held token.
    pub fn access_token(&self) -> (r: &str)
        ensures
            r@ == self.spec_token(),
    {
        self.token.as_str()
    }

    /// Builds the user-listing request, supplying the held token.
    pub fn list_users_request(&self) -> (r: HttpRequest)
        ensures
            r.method == Method::Post,
            r.url@ == "https://www.vereinsflieger.de/interface/rest/user/list"@,
            r.body matches Some(b) && b@ == form_encoded(
                spec_with_token(self.spec_token(), Seq::empty()),
            ),
    {
        crate::user::list_users_request(self.token.as_str())
    }

    /// Reads the user-listing outcome.
    pub fn list_users_response(&self, status: u16, body: &Vec<u8>) -> (r: Result<
        Vec<User>,
        Error,
    >)
        ensures
            r is Ok <==> (spec_classify(status, body@) is Ok && crate::records::spec_record_values(
                body@,
            ) is Some && crate::user::all_users_decodable(
                crate::records::spec_record_values(body@)->0,
            )),
            r matches Ok(us) ==> {
                let vals = crate::records::spec_record_values(body@)->0;
                &&& us@.len() == vals.len()
                &&& forall|i: int|
                    0 <= i < vals.len() ==> crate::user::user_matches(#[trigger] us@[i], vals[i])
            },
            r matches Err(e) ==> match spec_classify(status, body@) {
                Err(ce) => e@ == ce,
                Ok(_) => e@ is DeserializationFailed,
            },
    {
        list_users_response(status, body)
    }

    /// Builds the article-listing request, supplying the held token.
    pub fn list_articles_request(&self) -> (r: HttpRequest)
        ensures
            r.method == Method::Post,
            r.url@ == "https://www.vereinsflieger.de/interface/rest/articles/list"@,
            r.body matches Some(b) && b@ == form_encoded(
                spec_with_token(self.spec_token(), Seq::empty()),
            ),
    {
        crate::article::list_articles_request(self.token.as_str())
    }

    /// Reads the article-listing outcome.
    pub fn list_articles_response(&self, status: u16, body: &Vec<u8>) -> (r: Result<
        Vec<Article>,
        Error,
    >)
        ensures
            r is Ok <==> (spec_classify(status, body@) is Ok && crate::records::spec_record_values(
                body@,
            ) is Some && crate::article::all_articles_decodable(
                crate::records::spec_record_values(body@)->0,
            )),
            r matches Ok(arts) ==> {
                let vals = crate::records::spec_record_values(body@)->0;
                &&& arts@.len() == vals.len()
                &&& forall|i: int|
                    0 <= i < vals.len() ==> crate::article::article_matches(
                        #[trigger] arts@[i],
                        vals[i],
                    )
            },
            r matches Err(e) ==> match spec_classify(status, body@) {
                Err(ce) => e@ == ce,
                Ok(_) => e@ is DeserializationFailed,
            },
    {
        list_articles_response(status, body)
    }

    /// Builds the sale request, supplying the held token.
    pub fn add_sale_request(&self, new_sale: &NewSale) -> (r: HttpRequest)
        ensures
            r.method == Method::Post,
            r.url@ == "https://www.vereinsflieger.de/interface/rest/sale/add"@,
            r.body matches Some(b) && b@ == form_encoded(
                spec_with_token(self.spec_token(), spec_sale_params(*new_sale)),
            ),
    {
        add_sale_request(self.token.as_str(), new_sale)
    }

    /// Reads the sale outcome.
    pub fn add_sale_response(&self, status: u16, body: &Vec<u8>) -> (r: Result<(), Error>)
        ensures
            r is Ok <==> spec_classify(status, body@) is Ok,
            r matches Err(e) ==> e@ == spec_classify(status, body@)->Err_0,
    {
        add_sale_response(status, body)
    }
}

/// Builds the bodyless request that starts a session from no token.
pub fn access_token_request() -> (r: HttpRequest)
    ensures
        r.method == Method::Get,
        r.url@ == "https://www.vereinsflieger.de/interface/rest/auth/accesstoken"@,
        r.body is None,
{
    get_access_token_request()
}

/// Applies the token endpoint's outcome: on success the session advances
/// to holding exactly the token the service issued; on failure no session
/// exists and the error propagates.
pub fn session_from_token_response(status: u16, body: &Vec<u8>) -> (r: Result<Session, Error>)
    ensures
        r is Ok <==> spec_get_access_token(status, body@) is Ok,
        r matches Ok(s) ==> s.spec_token() == spec_get_access_token(status, body@)->Ok_0,
        r matches Err(e) ==> e@ == spec_get_access_token(status, body@)->Err_0,
{
    match get_access_token_response(status, body) {
        Ok(token) => Ok(Session { token }),
        Err(e) => Err(e),
    }
}

/// What sign-in yields for a session holding `token`: on a successfully
/// classified outcome, the very same token, now authenticated; otherwise
/// the classifier's error.
pub open spec fn spec_sign_in_outcome(token: Seq<char>, status: u16, body: Seq<u8>) -> Result<
    Seq<char>,
    ErrorV,
> {
    match spec_classify(status, body) {
        Ok(_) => Ok(token),
        Err(e) => Err(e),
    }
}

/// Token identity across the lifecycle: when fetching a token succeeds
/// with token `t` and the following sign-in succeeds, the authenticated
/// session carries exactly `t` — sign-in never swaps the token.
pub proof fn lemma_token_preserved(status1: u16, body1: Seq<u8>, status2: u16, body2: Seq<u8>)
    requires
        spec_get_access_token(status1, body1) is Ok,
        spec_classify(status2, body2) is Ok,
    ensures
        spec_sign_in_outcome(
            spec_get_access_token(status1, body1)->Ok_0,
            status2,
            body2,
        ) == Result::<Seq<char>, ErrorV>::Ok(spec_get_access_token(status1, body1)->Ok_0),
{
}

} // verus!
