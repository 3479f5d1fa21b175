//! Request identifiers: the header that carries them, and a fresh identifier
//! for a request that has none.
use crate::text::owned;
use vstd::prelude::*;

verus! {

/// The character is a lower-case hexadecimal digit.
pub open spec fn is_lower_hex(c: char) -> bool {
    ('0' <= c <= '9') || ('a' <= c <= 'f')
}

/// The text has the hyphenated form of a UUID: 36 characters, hyphens at
/// positions 8, 13, 18 and 23, lower-case hexadecimal digits elsewhere.
pub open spec fn is_hyphenated_uuid(s: Seq<char>) -> bool {
    &&& s.len() == 36
    &&& forall|i: int| 0 <= i < 36 ==> if i == 8 || i == 13 || i == 18 || i == 23 {
        #[trigger] s[i] == '-'
    } else {
        is_lower_hex(s[i])
    }
}

/// Relies on `getrandom::fill`: sixteen random bytes from the operating
/// system, or nothing when it cannot supply them.
#[verifier::external_body]
fn random_bytes() -> (r: Option<[u8; 16]>) {
    let mut bytes = [0u8; 16];
    match getrandom::fill(&mut bytes) {
        Ok(()) => Some(bytes),
        Err(_) => None,
    }
}

/// Relies on `uuid::Builder::from_random_bytes` and the `Display` of
/// `uuid::Uuid`: the version-4 UUID made of the given bytes, written in the
/// hyphenated lower-case form.
#[verifier::external_body]
fn uuid_text(bytes: [u8; 16]) -> (r: String)
    ensures
        is_hyphenated_uuid(r@),
{
    uuid::Builder::from_random_bytes(bytes).into_uuid().to_string()
}

/// A fresh random UUID, or nothing when no random bytes can be had.
fn fresh_uuid() -> (r: Option<String>)
    ensures
        r matches Some(s) ==> is_hyphenated_uuid(s@),
{
    match random_bytes() {
        Some(bytes) => Some(uuid_text(bytes)),
        None => None,
    }
}

/// Gives each request an identifier under a header name.
#[derive(Debug, Clone)]
pub struct RequestId {
    pub header_name: String,
}

/// The state of a service that tags requests with an identifier.
#[derive(Debug, Clone)]
pub struct RequestIdService<S> {
    pub inner: S,
    pub header_name: String,
}

impl RequestId {
    /// Identifiers under `x-request-id`.
    pub fn new() -> (r: Self)
        ensures
            r.header_name@ == "x-request-id"@,
    {
        RequestId { header_name: owned("x-request-id") }
    }

    /// Identifiers under the given header name.
    pub fn with_header(header_name: &str) -> (r: Self)
        ensures
            r.header_name@ == header_name@,
    {
        RequestId { header_name: owned(header_name) }
    }

    /// The identifier of a request: the one it carries, else a fresh UUID;
    /// nothing when a fresh one is needed but no random bytes can be had.
    pub fn resolve(&self, existing: Option<&str>) -> (r: Option<String>)
        ensures
            existing matches Some(e) ==> (r matches Some(s) && s@ == e@),
            existing is None ==> (r matches Some(s) ==> is_hyphenated_uuid(s@)),
    {
        match existing {
            Some(e) => Some(owned(e)),
            None => fresh_uuid(),
        }
    }
}

impl Default for RequestId {
    fn default() -> (r: Self)
        ensures
            r.header_name@ == "x-request-id"@,
    {
        RequestId::new()
    }
}

} // verus!
