//! Client core for a club-management web service: session lifecycle,
//! request building and response classification.

mod article;
mod auth;
mod digits;
mod error;
mod hash;
mod indexed;
mod json;
mod records;
mod request;
mod sale;
mod session;
mod text;
mod user;

pub use article::{list_articles_request, list_articles_response, Article, Price};
pub use auth::{
    authenticate_request, authenticate_response, get_access_token_request,
    get_access_token_response, Credentials,
};
pub use digits::u64_to_string;
pub use error::{error_for_status, Error};
pub use request::{HttpRequest, Method, WithAccessToken};
pub use sale::{add_sale_request, add_sale_response, NewSale};
pub use session::{
    access_token_request, session_from_token_response, AuthenticatedSession, Session,
};
pub use hash::serialize_md5;
pub use text::{unescape, unescape_vec};
pub use user::{list_users_request, list_users_response, Key, User};
