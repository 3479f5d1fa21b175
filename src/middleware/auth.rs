//! Bearer-token authentication: reading the token and the answers given when
//! it is missing or refused.
use crate::text::{append, has_prefix, owned, starts_with, string_views, suffix_from, contains_str};
use vstd::prelude::*;

verus! {

/// Bearer-token authentication with a validator of the caller's choice.
#[derive(Clone)]
pub struct BearerAuth<F> {
    pub validator: F,
}

impl<F> BearerAuth<F> {
    /// Authentication that checks tokens with `validator`.
    pub fn new(validator: F) -> (r: Self)
        ensures
            r.validator == validator,
    {
        BearerAuth { validator }
    }
}

/// The state of an authenticating service: the wrapped service and the
/// validator.
#[derive(Clone)]
pub struct BearerAuthService<S, F> {
    pub inner: S,
    pub validator: F,
}

/// The token of an `Authorization` header of the form `Bearer <token>`.
pub open spec fn bearer_token_of(header: Option<Seq<char>>) -> Option<Seq<char>> {
    match header {
        Some(h) => if has_prefix(h, "Bearer "@) {
            Some(h.subrange(7, h.len() as int))
        } else {
            None
        },
        None => None,
    }
}

/// Reads the token of an `Authorization` header of the form
/// `Bearer <token>`.
pub fn bearer_token(header: Option<&str>) -> (r: Option<String>)
    ensures
        r is Some <==> bearer_token_of(match header { Some(h) => Some(h@), None => None }) is Some,
        r matches Some(t) ==> bearer_token_of(match header { Some(h) => Some(h@), None => None }) == Some(t@),
{
    match header {
        Some(h) => {
            if starts_with(h, "Bearer ") {
                proof {
                    reveal_strlit("Bearer ");
                }
                Some(suffix_from(h, 7))
            } else {
                None
            }
        },
        None => None,
    }
}

/// A request refused before it reaches the handler.
#[derive(Debug, Clone)]
pub struct Rejection {
    pub status: u16,
    pub message: String,
}

/// The 401 answer to a request without a bearer token.
pub fn missing_token() -> (r: Rejection)
    ensures
        r.status == 401,
        r.message@ == "Missing or invalid Authorization header. Expected: Bearer <token>"@,
{
    Rejection { status: 401, message: owned("Missing or invalid Authorization header. Expected: Bearer <token>") }
}

/// The 401 answer to a request whose token the validator refused with
/// `error`.
pub fn refused_token(error: &str) -> (r: Rejection)
    ensures
        r.status == 401,
        r.message@ == "Authentication failed: "@ + error@,
{
    let mut m = owned("Authentication failed: ");
    append(&mut m, error);
    Rejection { status: 401, message: m }
}

/// Accepts exactly the tokens of the list; any other is refused with
/// `Invalid token`.
pub fn check_token(valid_tokens: &Vec<String>, token: &str) -> (r: Result<(), String>)
    ensures
        r is Ok <==> string_views(valid_tokens@).contains(token@),
        r matches Err(m) ==> m@ == "Invalid token"@,
{
    if contains_str(valid_tokens, token) {
        Ok(())
    } else {
        Err(owned("Invalid token"))
    }
}

/// `std::future::Ready`: a future that is ready at once.
#[verifier::external_type_specification]
#[verifier::external_body]
#[verifier::reject_recursive_types(T)]
pub struct ExReady<T>(std::future::Ready<T>);

/// Relies on `std::future::ready`: a future that is immediately ready with
/// `value`.
#[verifier::external_body]
fn ready<T>(value: T) -> std::future::Ready<T> {
    std::future::ready(value)
}

/// A validator that accepts exactly the given tokens.
pub fn token_validator(valid_tokens: Vec<String>) -> (r: impl Fn(String) -> std::future::Ready<Result<(), String>> + Clone) {
    move |token: String| ready(check_token(&valid_tokens, token.as_str()))
}

} // verus!
