//! The response envelope: a closed set of outcomes, each with a fixed status
//! code and body shape, and its conversion to a wire-level response.
use crate::params::ParamError;
use crate::text::{append, chars_of, owned, push_char};
use vstd::prelude::*;

verus! {

/// The sixteen hexadecimal digits, in lower case.
pub open spec fn hex_digits() -> Seq<char> {
    seq!['0', '1', '2', '3', '4', '5', '6', '7', '8', '9', 'a', 'b', 'c', 'd', 'e', 'f']
}

/// How one character is written inside a JSON string literal.
pub open spec fn escape_char(c: char) -> Seq<char> {
    if c == '"' {
        seq!['\\', '"']
    } else if c == '\\' {
        seq!['\\', '\\']
    } else if c == '\n' {
        seq!['\\', 'n']
    } else if c == '\r' {
        seq!['\\', 'r']
    } else if c == '\t' {
        seq!['\\', 't']
    } else if c == '\x08' {
        seq!['\\', 'b']
    } else if c == '\x0c' {
        seq!['\\', 'f']
    } else if (c as u32) < 0x20 {
        seq!['\\', 'u', '0', '0', hex_digits()[((c as u32) / 16) as int], hex_digits()[((c as u32) % 16) as int]]
    } else {
        seq![c]
    }
}

/// The characters of `s` as they are written inside a JSON string literal.
pub open spec fn json_escaped(s: Seq<char>) -> Seq<char>
    decreases s.len(),
{
    if s.len() == 0 {
        Seq::empty()
    } else {
        json_escaped(s.drop_last()) + escape_char(s.last())
    }
}

/// `s` as a JSON string literal, quotes included.
pub open spec fn json_quoted(s: Seq<char>) -> Seq<char> {
    seq!['"'] + json_escaped(s) + seq!['"']
}

/// The JSON body of an error: `{"code":..,"message":..}`, with a `details`
/// member holding the given JSON text when there is one.
pub open spec fn error_body(code: Seq<char>, message: Seq<char>, details: Option<Seq<char>>) -> Seq<
    char,
> {
    let head = "{\"code\":"@ + json_quoted(code) + ",\"message\":"@ + json_quoted(message);
    match details {
        Some(d) => head + ",\"details\":"@ + d + "}"@,
        None => head + "}"@,
    }
}

fn hex_digit(n: u32) -> (c: char)
    requires
        n < 16,
    ensures
        c == hex_digits()[n as int],
{
    let digits: Vec<char> = vec!['0', '1', '2', '3', '4', '5', '6', '7', '8', '9', 'a', 'b', 'c', 'd', 'e', 'f'];
    assert(digits@ =~= hex_digits());
    digits[n as usize]
}

/// Appends the JSON form of one character.
fn push_escaped(out: &mut String, c: char)
    ensures
        final(out)@ == old(out)@ + escape_char(c),
{
    if c == '"' {
        append(out, "\\\"");
    } else if c == '\\' {
        append(out, "\\\\");
    } else if c == '\n' {
        append(out, "\\n");
    } else if c == '\r' {
        append(out, "\\r");
    } else if c == '\t' {
        append(out, "\\t");
    } else if c == '\x08' {
        append(out, "\\b");
    } else if c == '\x0c' {
        append(out, "\\f");
    } else if (c as u32) < 0x20 {
        append(out, "\\u00");
        push_char(out, hex_digit((c as u32) / 16));
        push_char(out, hex_digit((c as u32) % 16));
    } else {
        push_char(out, c);
    }
    proof {
        reveal_strlit("\\\"");
        reveal_strlit("\\\\");
        reveal_strlit("\\n");
        reveal_strlit("\\r");
        reveal_strlit("\\t");
        reveal_strlit("\\b");
        reveal_strlit("\\f");
        reveal_strlit("\\u00");
        assert(final(out)@ =~= old(out)@ + escape_char(c));
    }
}

/// Appends `s` as a JSON string literal.
pub fn push_json_string(out: &mut String, s: &str)
    ensures
        final(out)@ == old(out)@ + json_quoted(s@),
{
    let cs = chars_of(s);
    let ghost start = out@;
    push_char(out, '"');
    let mut i: usize = 0;
    while i < cs.len()
        invariant
            cs@ == s@,
            i <= cs@.len(),
            out@ == start + seq!['"'] + json_escaped(s@.take(i as int)),
        decreases cs@.len() - i,
    {
        push_escaped(out, cs[i]);
        proof {
            assert(s@.take(i + 1).drop_last() =~= s@.take(i as int));
        }
        i = i + 1;
    }
    push_char(out, '"');
    proof {
        assert(s@.take(cs@.len() as int) =~= s@);
        assert(out@ =~= start + json_quoted(s@));
    }
}

/// Renders the JSON body of an error.
pub fn render_error_body(code: &str, message: &str, details: Option<&str>) -> (r: String)
    ensures
        r@ == error_body(code@, message@, match details {
            Some(d) => Some(d@),
            None => None,
        }),
{
    let mut out = owned("{\"code\":");
    push_json_string(&mut out, code);
    append(&mut out, ",\"message\":");
    push_json_string(&mut out, message);
    match details {
        Some(d) => {
            append(&mut out, ",\"details\":");
            append(&mut out, d);
            append(&mut out, "}");
        },
        None => {
            append(&mut out, "}");
        },
    }
    proof {
        let ghost dv = match details {
            Some(d) => Some(d@),
            None => None,
        };
        assert(out@ =~= error_body(code@, message@, dv));
    }
    out
}

/// A successful outcome with a payload, or none.
#[derive(Debug, Clone)]
pub enum Response<T> {
    /// 200 OK.
    Success(T),
    /// 201 Created.
    Created(T),
    /// 204 No Content: no body.
    NoContent,
}

impl<T> Response<T> {
    /// A 200 OK response carrying `data`.
    pub fn ok(data: T) -> (r: Self)
        ensures
            r == Response::Success(data),
    {
        Response::Success(data)
    }

    /// A 201 Created response carrying `data`.
    pub fn created(data: T) -> (r: Self)
        ensures
            r == Response::Created(data),
    {
        Response::Created(data)
    }

    /// A 204 No Content response.
    pub fn no_content() -> (r: Self)
        ensures
            r == Response::<T>::NoContent,
    {
        Response::NoContent
    }

    /// The envelope outcome with the same tag and payload.
    pub open spec fn envelope(self) -> ApiResponse<T> {
        match self {
            Response::Success(d) => ApiResponse::Success(d),
            Response::Created(d) => ApiResponse::Created(d),
            Response::NoContent => ApiResponse::NoContent,
        }
    }

    /// Converts to the envelope outcome with the same tag and payload.
    pub fn into_envelope(self) -> (r: ApiResponse<T>)
        ensures
            r == self.envelope(),
    {
        match self {
            Response::Success(d) => ApiResponse::Success(d),
            Response::Created(d) => ApiResponse::Created(d),
            Response::NoContent => ApiResponse::NoContent,
        }
    }

    /// The status code: 200, 201 or 204.
    pub fn status_code(&self) -> (r: u16)
        ensures
            r == self.envelope().status(),
    {
        match self {
            Response::Success(_) => 200,
            Response::Created(_) => 201,
            Response::NoContent => 204,
        }
    }
}

/// A handler-declared failure: a machine-readable code, a message for people
/// and, optionally, structured details given as JSON text.
#[derive(Debug, Clone)]
pub enum Error {
    /// 400 Bad Request: invalid request data.
    BadRequest { code: String, message: String, details: Option<String> },
    /// 401 Unauthorized: authentication required.
    Unauthorized { code: String, message: String, details: Option<String> },
    /// 403 Forbidden: insufficient permissions.
    Forbidden { code: String, message: String, details: Option<String> },
    /// 404 Not Found: the resource does not exist.
    NotFound { code: String, message: String, details: Option<String> },
    /// 409 Conflict: the resource is in conflict.
    Conflict { code: String, message: String, details: Option<String> },
    /// 422 Unprocessable Entity: validation failed.
    UnprocessableEntity { code: String, message: String, details: Option<String> },
    /// 500 Internal Server Error: an unexpected failure.
    InternalError { code: String, message: String, details: Option<String> },
    /// 503 Service Unavailable: try again later.
    ServiceUnavailable { code: String, message: String, details: Option<String> },
}

impl Error {
    /// A 400 error with the given code and message and no details.
    pub fn bad_request(code: &str, message: &str) -> (r: Self)
        ensures
            r is BadRequest,
            r.code_view() == code@,
            r.message_view() == message@,
            r.details_view() is None,
    {
        Error::BadRequest { code: owned(code), message: owned(message), details: None }
    }

    /// A 401 error with the given code and message and no details.
    pub fn unauthorized(code: &str, message: &str) -> (r: Self)
        ensures
            r is Unauthorized,
            r.code_view() == code@,
            r.message_view() == message@,
            r.details_view() is None,
    {
        Error::Unauthorized { code: owned(code), message: owned(message), details: None }
    }

    /// A 403 error with the given code and message and no details.
    pub fn forbidden(code: &str, message: &str) -> (r: Self)
        ensures
            r is Forbidden,
            r.code_view() == code@,
            r.message_view() == message@,
            r.details_view() is None,
    {
        Error::Forbidden { code: owned(code), message: owned(message), details: None }
    }

    /// A 404 error with the given code and message and no details.
    pub fn not_found(code: &str, message: &str) -> (r: Self)
        ensures
            r is NotFound,
            r.code_view() == code@,
            r.message_view() == message@,
            r.details_view() is None,
    {
        Error::NotFound { code: owned(code), message: owned(message), details: None }
    }

    /// A 409 error with the given code and message and no details.
    pub fn conflict(code: &str, message: &str) -> (r: Self)
        ensures
            r is Conflict,
            r.code_view() == code@,
            r.message_view() == message@,
            r.details_view() is None,
    {
        Error::Conflict { code: owned(code), message: owned(message), details: None }
    }

    /// A 422 error with the given code and message and no details.
    pub fn unprocessable(code: &str, message: &str) -> (r: Self)
        ensures
            r is UnprocessableEntity,
            r.code_view() == code@,
            r.message_view() == message@,
            r.details_view() is None,
    {
        Error::UnprocessableEntity { code: owned(code), message: owned(message), details: None }
    }

    /// A 500 error with the given code and message and no details.
    pub fn internal(code: &str, message: &str) -> (r: Self)
        ensures
            r is InternalError,
            r.code_view() == code@,
            r.message_view() == message@,
            r.details_view() is None,
    {
        Error::InternalError { code: owned(code), message: owned(message), details: None }
    }

    /// A 503 error with the given code and message and no details.
    pub fn service_unavailable(code: &str, message: &str) -> (r: Self)
        ensures
            r is ServiceUnavailable,
            r.code_view() == code@,
            r.message_view() == message@,
            r.details_view() is None,
    {
        Error::ServiceUnavailable { code: owned(code), message: owned(message), details: None }
    }

    /// A 400 error with the given code and message and `details`, which is
    /// JSON text.
    pub fn bad_request_with_details(code: &str, message: &str, details: &str) -> (r: Self)
        ensures
            r is BadRequest,
            r.code_view() == code@,
            r.message_view() == message@,
            r.details_view() == Some(details@),
    {
        Error::BadRequest { code: owned(code), message: owned(message), details: Some(owned(details)) }
    }

    /// A 422 error with the given code and message and `details`, which is
    /// JSON text.
    pub fn unprocessable_with_details(code: &str, message: &str, details: &str) -> (r: Self)
        ensures
            r is UnprocessableEntity,
            r.code_view() == code@,
            r.message_view() == message@,
            r.details_view() == Some(details@),
    {
        Error::UnprocessableEntity { code: owned(code), message: owned(message), details: Some(owned(details)) }
    }

    /// The error's code.
    pub open spec fn code_view(&self) -> Seq<char> {
        match self {
            Error::BadRequest { code, message, details } => code@,
            Error::Unauthorized { code, message, details } => code@,
            Error::Forbidden { code, message, details } => code@,
            Error::NotFound { code, message, details } => code@,
            Error::Conflict { code, message, details } => code@,
            Error::UnprocessableEntity { code, message, details } => code@,
            Error::InternalError { code, message, details } => code@,
            Error::ServiceUnavailable { code, message, details } => code@,
        }
    }

    /// The error's message.
    pub open spec fn message_view(&self) -> Seq<char> {
        match self {
            Error::BadRequest { code, message, details } => message@,
            Error::Unauthorized { code, message, details } => message@,
            Error::Forbidden { code, message, details } => message@,
            Error::NotFound { code, message, details } => message@,
            Error::Conflict { code, message, details } => message@,
            Error::UnprocessableEntity { code, message, details } => message@,
            Error::InternalError { code, message, details } => message@,
            Error::ServiceUnavailable { code, message, details } => message@,
        }
    }

    /// The error's details, as JSON text.
    pub open spec fn details_view(&self) -> Option<Seq<char>> {
        match self {
            Error::BadRequest { code, message, details } => match details { Some(d) => Some(d@), None => None },
            Error::Unauthorized { code, message, details } => match details { Some(d) => Some(d@), None => None },
            Error::Forbidden { code, message, details } => match details { Some(d) => Some(d@), None => None },
            Error::NotFound { code, message, details } => match details { Some(d) => Some(d@), None => None },
            Error::Conflict { code, message, details } => match details { Some(d) => Some(d@), None => None },
            Error::UnprocessableEntity { code, message, details } => match details { Some(d) => Some(d@), None => None },
            Error::InternalError { code, message, details } => match details { Some(d) => Some(d@), None => None },
            Error::ServiceUnavailable { code, message, details } => match details { Some(d) => Some(d@), None => None },
        }
    }

    /// The status code of the error's tag.
    pub open spec fn status(&self) -> u16 {
        match self {
            Error::BadRequest { .. } => 400,
            Error::Unauthorized { .. } => 401,
            Error::Forbidden { .. } => 403,
            Error::NotFound { .. } => 404,
            Error::Conflict { .. } => 409,
            Error::UnprocessableEntity { .. } => 422,
            Error::InternalError { .. } => 500,
            Error::ServiceUnavailable { .. } => 503,
        }
    }

    /// The HTTP status code of the error.
    pub fn status_code(&self) -> (r: u16)
        ensures
            r == self.status(),
    {
        match self {
            Error::BadRequest { .. } => 400,
            Error::Unauthorized { .. } => 401,
            Error::Forbidden { .. } => 403,
            Error::NotFound { .. } => 404,
            Error::Conflict { .. } => 409,
            Error::UnprocessableEntity { .. } => 422,
            Error::InternalError { .. } => 500,
            Error::ServiceUnavailable { .. } => 503,
        }
    }

    /// The error's code.
    pub fn code(&self) -> (r: &str)
        ensures
            r@ == self.code_view(),
    {
        match self {
            Error::BadRequest { code, .. } => code.as_str(),
            Error::Unauthorized { code, .. } => code.as_str(),
            Error::Forbidden { code, .. } => code.as_str(),
            Error::NotFound { code, .. } => code.as_str(),
            Error::Conflict { code, .. } => code.as_str(),
            Error::UnprocessableEntity { code, .. } => code.as_str(),
            Error::InternalError { code, .. } => code.as_str(),
            Error::ServiceUnavailable { code, .. } => code.as_str(),
        }
    }

    /// The error's message.
    pub fn message(&self) -> (r: &str)
        ensures
            r@ == self.message_view(),
    {
        match self {
            Error::BadRequest { message, .. } => message.as_str(),
            Error::Unauthorized { message, .. } => message.as_str(),
            Error::Forbidden { message, .. } => message.as_str(),
            Error::NotFound { message, .. } => message.as_str(),
            Error::Conflict { message, .. } => message.as_str(),
            Error::UnprocessableEntity { message, .. } => message.as_str(),
            Error::InternalError { message, .. } => message.as_str(),
            Error::ServiceUnavailable { message, .. } => message.as_str(),
        }
    }

    /// The error's details, as JSON text.
    pub fn details(&self) -> (r: Option<&str>)
        ensures
            r is Some <==> self.details_view() is Some,
            r matches Some(d) ==> self.details_view() == Some(d@),
    {
        match self {
            Error::BadRequest { details, .. } => match details {
                Some(d) => Some(d.as_str()),
                None => None,
            },
            Error::Unauthorized { details, .. } => match details {
                Some(d) => Some(d.as_str()),
                None => None,
            },
            Error::Forbidden { details, .. } => match details {
                Some(d) => Some(d.as_str()),
                None => None,
            },
            Error::NotFound { details, .. } => match details {
                Some(d) => Some(d.as_str()),
                None => None,
            },
            Error::Conflict { details, .. } => match details {
                Some(d) => Some(d.as_str()),
                None => None,
            },
            Error::UnprocessableEntity { details, .. } => match details {
                Some(d) => Some(d.as_str()),
                None => None,
            },
            Error::InternalError { details, .. } => match details {
                Some(d) => Some(d.as_str()),
                None => None,
            },
            Error::ServiceUnavailable { details, .. } => match details {
                Some(d) => Some(d.as_str()),
                None => None,
            },
        }
    }

    /// The JSON body sent for the error.
    pub fn to_body(&self) -> (r: String)
        ensures
            r@ == error_body(self.code_view(), self.message_view(), self.details_view()),
    {
        render_error_body(self.code(), self.message(), self.details())
    }

    /// The envelope outcome with the same tag and fields.
    pub open spec fn envelope<T>(self) -> ApiResponse<T> {
        match self {
            Error::BadRequest { code, message, details } => ApiResponse::BadRequest { code, message, details },
            Error::Unauthorized { code, message, details } => ApiResponse::Unauthorized { code, message, details },
            Error::Forbidden { code, message, details } => ApiResponse::Forbidden { code, message, details },
            Error::NotFound { code, message, details } => ApiResponse::NotFound { code, message, details },
            Error::Conflict { code, message, details } => ApiResponse::Conflict { code, message, details },
            Error::UnprocessableEntity { code, message, details } => ApiResponse::UnprocessableEntity { code, message, details },
            Error::InternalError { code, message, details } => ApiResponse::InternalError { code, message, details },
            Error::ServiceUnavailable { code, message, details } => ApiResponse::ServiceUnavailable { code, message, details },
        }
    }

    /// Converts to the envelope outcome with the same tag and fields.
    pub fn into_envelope<T>(self) -> (r: ApiResponse<T>)
        ensures
            r == self.envelope::<T>(),
    {
        match self {
            Error::BadRequest { code, message, details } => ApiResponse::BadRequest { code, message, details },
            Error::Unauthorized { code, message, details } => ApiResponse::Unauthorized { code, message, details },
            Error::Forbidden { code, message, details } => ApiResponse::Forbidden { code, message, details },
            Error::NotFound { code, message, details } => ApiResponse::NotFound { code, message, details },
            Error::Conflict { code, message, details } => ApiResponse::Conflict { code, message, details },
            Error::UnprocessableEntity { code, message, details } => ApiResponse::UnprocessableEntity { code, message, details },
            Error::InternalError { code, message, details } => ApiResponse::InternalError { code, message, details },
            Error::ServiceUnavailable { code, message, details } => ApiResponse::ServiceUnavailable { code, message, details },
        }
    }

    /// The error for a parameter that is missing or malformed: a 400 with
    /// code `invalid_parameter`.
    pub fn from_param_error(err: &ParamError) -> (r: Self)
        ensures
            r is BadRequest,
            r.code_view() == "invalid_parameter"@,
            r.message_view() == param_error_text(*err),
            r.details_view() is None,
    {
        let text = err.to_message();
        Error::BadRequest { code: owned("invalid_parameter"), message: text, details: None }
    }

    /// The error for a request body that is not the expected JSON: a 400 with
    /// code `json_parse_error`; `reason` is the decoder's account.
    pub fn json_parse_error(reason: &str) -> (r: Self)
        ensures
            r is BadRequest,
            r.code_view() == "json_parse_error"@,
            r.message_view() == "Failed to parse JSON: "@ + reason@,
            r.details_view() is None,
    {
        let mut m = owned("Failed to parse JSON: ");
        append(&mut m, reason);
        Error::BadRequest { code: owned("json_parse_error"), message: m, details: None }
    }

    /// The error for a malformed number: a 400 with code `parse_error`.
    pub fn number_parse_error(reason: &str) -> (r: Self)
        ensures
            r is BadRequest,
            r.code_view() == "parse_error"@,
            r.message_view() == "Failed to parse number: "@ + reason@,
            r.details_view() is None,
    {
        let mut m = owned("Failed to parse number: ");
        append(&mut m, reason);
        Error::BadRequest { code: owned("parse_error"), message: m, details: None }
    }

    /// The error for a malformed boolean: a 400 with code `parse_error`.
    pub fn bool_parse_error(reason: &str) -> (r: Self)
        ensures
            r is BadRequest,
            r.code_view() == "parse_error"@,
            r.message_view() == "Failed to parse boolean: "@ + reason@,
            r.details_view() is None,
    {
        let mut m = owned("Failed to parse boolean: ");
        append(&mut m, reason);
        Error::BadRequest { code: owned("parse_error"), message: m, details: None }
    }

    /// The error for a failed input or output operation: a 500 with code
    /// `io_error`; the cause is not shown to the client.
    pub fn io_error() -> (r: Self)
        ensures
            r is InternalError,
            r.code_view() == "io_error"@,
            r.message_view() == "Internal server error"@,
            r.details_view() is None,
    {
        Error::internal("io_error", "Internal server error")
    }
}

} // verus!

verus! {

impl Error {
    /// The name of the error's status.
    pub open spec fn status_text(&self) -> Seq<char> {
        match self {
            Error::BadRequest { .. } => "Bad Request"@,
            Error::Unauthorized { .. } => "Unauthorized"@,
            Error::Forbidden { .. } => "Forbidden"@,
            Error::NotFound { .. } => "Not Found"@,
            Error::Conflict { .. } => "Conflict"@,
            Error::UnprocessableEntity { .. } => "Unprocessable Entity"@,
            Error::InternalError { .. } => "Internal Server Error"@,
            Error::ServiceUnavailable { .. } => "Service Unavailable"@,
        }
    }

    fn status_label(&self) -> (r: &'static str)
        ensures
            r@ == self.status_text(),
    {
        match self {
            Error::BadRequest { .. } => "Bad Request",
            Error::Unauthorized { .. } => "Unauthorized",
            Error::Forbidden { .. } => "Forbidden",
            Error::NotFound { .. } => "Not Found",
            Error::Conflict { .. } => "Conflict",
            Error::UnprocessableEntity { .. } => "Unprocessable Entity",
            Error::InternalError { .. } => "Internal Server Error",
            Error::ServiceUnavailable { .. } => "Service Unavailable",
        }
    }

    /// A one-line account of the error, for people: `<status> [<code>]:
    /// <message>`.
    pub fn to_message(&self) -> (r: String)
        ensures
            r@ == self.status_text() + " ["@ + self.code_view() + "]: "@ + self.message_view(),
    {
        let mut r = owned(self.status_label());
        append(&mut r, " [");
        append(&mut r, self.code());
        append(&mut r, "]: ");
        append(&mut r, self.message());
        r
    }
}

/// The JSON text of a list of strings: `["a","b"]`.
pub open spec fn json_string_list(s: Seq<Seq<char>>) -> Seq<char>
    decreases s.len(),
{
    if s.len() == 0 {
        "[]"@
    } else {
        "["@ + json_list_items(s) + "]"@
    }
}

/// The strings of a list as JSON literals, separated by commas.
pub open spec fn json_list_items(s: Seq<Seq<char>>) -> Seq<char>
    decreases s.len(),
{
    if s.len() == 0 {
        Seq::empty()
    } else if s.len() == 1 {
        json_quoted(s[0])
    } else {
        json_list_items(s.drop_last()) + ","@ + json_quoted(s.last())
    }
}

/// The fields of a validation failure that have messages, in order.
pub open spec fn fields_with_messages(f: Seq<(Seq<char>, Seq<Seq<char>>)>) -> Seq<(Seq<char>, Seq<Seq<char>>)> {
    f.filter(|e: (Seq<char>, Seq<Seq<char>>)| e.1.len() > 0)
}

/// The members of a JSON object from fields to message lists, separated by
/// commas.
pub open spec fn json_members(f: Seq<(Seq<char>, Seq<Seq<char>>)>) -> Seq<char>
    decreases f.len(),
{
    if f.len() == 0 {
        Seq::empty()
    } else if f.len() == 1 {
        json_quoted(f[0].0) + ":"@ + json_string_list(f[0].1)
    } else {
        json_members(f.drop_last()) + ","@ + json_quoted(f.last().0) + ":"@ + json_string_list(f.last().1)
    }
}

/// The details of a validation failure: a JSON object from each field that
/// has messages to the list of its messages.
pub open spec fn validation_details(f: Seq<(Seq<char>, Seq<Seq<char>>)>) -> Seq<char> {
    "{"@ + json_members(fields_with_messages(f)) + "}"@
}

/// The views of a list of fields and their messages.
pub open spec fn field_views(f: Seq<(String, Vec<String>)>) -> Seq<(Seq<char>, Seq<Seq<char>>)> {
    f.map_values(|e: (String, Vec<String>)| (e.0@, crate::text::string_views(e.1@)))
}

fn push_string_list(out: &mut String, items: &Vec<String>)
    ensures
        final(out)@ == old(out)@ + json_string_list(crate::text::string_views(items@)),
{
    let ghost start = out@;
    let ghost v = crate::text::string_views(items@);
    if items.len() == 0 {
        append(out, "[]");
        return;
    }
    append(out, "[");
    let mut i: usize = 0;
    while i < items.len()
        invariant
            v == crate::text::string_views(items@),
            items@.len() > 0,
            i <= items@.len(),
            i == 0 ==> out@ == start + "["@,
            i > 0 ==> out@ == start + "["@ + json_list_items(v.take(i as int)),
        decreases items@.len() - i,
    {
        if i > 0 {
            append(out, ",");
        }
        push_json_string(out, items[i].as_str());
        proof {
            let t = v.take(i + 1);
            assert(t.drop_last() =~= v.take(i as int));
            assert(t.last() == items@[i as int]@);
            if i == 0 {
                assert(t.len() == 1);
                assert(out@ =~= start + "["@ + json_list_items(t));
            } else {
                assert(out@ =~= start + "["@ + json_list_items(t));
            }
        }
        i = i + 1;
    }
    append(out, "]");
    proof {
        assert(v.take(items@.len() as int) =~= v);
        assert(out@ =~= start + json_string_list(v));
    }
}

/// Renders the details of a validation failure.
pub fn render_validation_details(fields: &Vec<(String, Vec<String>)>) -> (r: String)
    ensures
        r@ == validation_details(field_views(fields@)),
{
    let ghost fv = field_views(fields@);
    let mut out = owned("{");
    let mut written: usize = 0;
    let mut i: usize = 0;
    while i < fields.len()
        invariant
            fv == field_views(fields@),
            i <= fields@.len(),
            written == fields_with_messages(fv.take(i as int)).len(),
            out@ == "{"@ + json_members(fields_with_messages(fv.take(i as int))),
        decreases fields@.len() - i,
    {
        let ghost before = fields_with_messages(fv.take(i as int));
        proof {
            reveal(Seq::filter);
            assert(fv.take(i + 1).drop_last() =~= fv.take(i as int));
            assert(fv.take(i + 1).last() == fv[i as int]);
            assert(fv[i as int].1 == crate::text::string_views(fields@[i as int].1@));
        }
        if fields[i].1.len() > 0 {
            if written > 0 {
                append(&mut out, ",");
            }
            push_json_string(&mut out, fields[i].0.as_str());
            append(&mut out, ":");
            push_string_list(&mut out, &fields[i].1);
            proof {
                let after = before.push(fv[i as int]);
                assert(fields_with_messages(fv.take(i + 1)) == after);
                assert(after.drop_last() =~= before);
                if written == 0 {
                    assert(before.len() == 0);
                    assert(out@ =~= "{"@ + json_members(after));
                } else {
                    assert(out@ =~= "{"@ + json_members(after));
                }
            }
            written = written + 1;
        } else {
            proof {
                assert(fields_with_messages(fv.take(i + 1)) == before);
            }
        }
        i = i + 1;
    }
    append(&mut out, "}");
    proof {
        assert(fv.take(fields@.len() as int) =~= fv);
    }
    out
}

impl Error {
    /// The error for a request that failed validation: a 422 with code
    /// `validation_failed` whose details map each field that has messages to
    /// its messages.
    pub fn validation_failed(fields: &Vec<(String, Vec<String>)>) -> (r: Self)
        ensures
            r is UnprocessableEntity,
            r.code_view() == "validation_failed"@,
            r.message_view() == "Request validation failed"@,
            r.details_view() == Some(validation_details(field_views(fields@))),
    {
        let details = render_validation_details(fields);
        Error::UnprocessableEntity {
            code: owned("validation_failed"),
            message: owned("Request validation failed"),
            details: Some(details),
        }
    }
}

/// The text of a parameter error, as `ParamError::to_message` gives it.
pub open spec fn param_error_text(e: ParamError) -> Seq<char> {
    match e {
        ParamError::Missing(k) => "Missing parameter: "@ + k@,
        ParamError::InvalidType { key, value, expected } => "Invalid parameter '"@ + key@
            + "': cannot parse '"@ + value@ + "' as "@ + expected@,
    }
}

impl From<ParamError> for Error {
    fn from(err: ParamError) -> (r: Self) {
        Error::from_param_error(&err)
    }
}

impl vstd::std_specs::convert::FromSpecImpl<ParamError> for Error {
    open spec fn obeys_from_spec() -> bool {
        false
    }

    open spec fn from_spec(v: ParamError) -> Error {
        Error::BadRequest { code: arbitrary(), message: arbitrary(), details: None }
    }
}

/// Every outcome that a handler can produce, each with a fixed status code and
/// body shape. Details of an error are JSON text.
#[derive(Debug, Clone)]
pub enum ApiResponse<T> {
    /// 200 with a payload.
    Success(T),
    /// 201 with a payload.
    Created(T),
    /// 204 with no body.
    NoContent,
    /// 301: a redirect to `location`, with no body.
    MovedPermanently { location: String },
    /// 302: a redirect to `location`, with no body.
    Found { location: String },
    /// 303: a redirect to `location`, with no body.
    SeeOther { location: String },
    /// 307: a redirect to `location`, with no body.
    TemporaryRedirect { location: String },
    /// 308: a redirect to `location`, with no body.
    PermanentRedirect { location: String },
    /// 400 with an error body.
    BadRequest { code: String, message: String, details: Option<String> },
    /// 401 with an error body.
    Unauthorized { code: String, message: String, details: Option<String> },
    /// 403 with an error body.
    Forbidden { code: String, message: String, details: Option<String> },
    /// 404 with an error body.
    NotFound { code: String, message: String, details: Option<String> },
    /// 409 with an error body.
    Conflict { code: String, message: String, details: Option<String> },
    /// 422 with an error body.
    UnprocessableEntity { code: String, message: String, details: Option<String> },
    /// 500 with an error body.
    InternalError { code: String, message: String, details: Option<String> },
    /// 503 with an error body.
    ServiceUnavailable { code: String, message: String, details: Option<String> },
    /// A client error whose status the caller chooses, in 400..=499.
    ClientError { status: u16, code: String, message: String, details: Option<String> },
    /// A server error whose status the caller chooses, in 500..=599.
    ServerError { status: u16, code: String, message: String, details: Option<String> },
}

/// The body of a wire-level response.
#[derive(Debug, Clone)]
pub enum WireBody<T> {
    /// No body.
    Empty,
    /// A payload, to be encoded as JSON by the transport.
    Payload(T),
    /// JSON text, sent as it is.
    Json(String),
}

/// A response as the transport sends it: status, optional `Location` header
/// and body.
#[derive(Debug, Clone)]
pub struct WireResponse<T> {
    pub status: u16,
    pub location: Option<String>,
    pub body: WireBody<T>,
}

/// The body shape of a wire response, in terms of views.
pub enum BodyShape<T> {
    Empty,
    Payload(T),
    Json(Seq<char>),
}

impl<T> WireBody<T> {
    /// The body in terms of views.
    pub open spec fn shape(self) -> BodyShape<T> {
        match self {
            WireBody::Empty => BodyShape::Empty,
            WireBody::Payload(t) => BodyShape::Payload(t),
            WireBody::Json(s) => BodyShape::Json(s@),
        }
    }
}

impl<T> ApiResponse<T> {
    /// The status code of each tag; custom errors carry their own.
    pub open spec fn status(&self) -> u16 {
        match self {
            ApiResponse::Success(_) => 200,
            ApiResponse::Created(_) => 201,
            ApiResponse::NoContent => 204,
            ApiResponse::MovedPermanently { .. } => 301,
            ApiResponse::Found { .. } => 302,
            ApiResponse::SeeOther { .. } => 303,
            ApiResponse::TemporaryRedirect { .. } => 307,
            ApiResponse::PermanentRedirect { .. } => 308,
            ApiResponse::BadRequest { .. } => 400,
            ApiResponse::Unauthorized { .. } => 401,
            ApiResponse::Forbidden { .. } => 403,
            ApiResponse::NotFound { .. } => 404,
            ApiResponse::Conflict { .. } => 409,
            ApiResponse::UnprocessableEntity { .. } => 422,
            ApiResponse::InternalError { .. } => 500,
            ApiResponse::ServiceUnavailable { .. } => 503,
            ApiResponse::ClientError { status, .. } => *status,
            ApiResponse::ServerError { status, .. } => *status,
        }
    }

    /// A custom client error has a 4xx status and a custom server error a 5xx
    /// one.
    pub open spec fn wf(&self) -> bool {
        match self {
            ApiResponse::ClientError { status, .. } => 400 <= *status <= 499,
            ApiResponse::ServerError { status, .. } => 500 <= *status <= 599,
            _ => true,
        }
    }

    /// The tag is a success.
    pub open spec fn is_success(&self) -> bool {
        self is Success || self is Created || self is NoContent
    }

    /// The tag is a redirect.
    pub open spec fn is_redirect(&self) -> bool {
        self is MovedPermanently || self is Found || self is SeeOther || self is TemporaryRedirect
            || self is PermanentRedirect
    }

    /// The tag is a client error.
    pub open spec fn is_client_error(&self) -> bool {
        self is BadRequest || self is Unauthorized || self is Forbidden || self is NotFound
            || self is Conflict || self is UnprocessableEntity || self is ClientError
    }

    /// The tag is a server error.
    pub open spec fn is_server_error(&self) -> bool {
        self is InternalError || self is ServiceUnavailable || self is ServerError
    }

    /// The `Location` header: the target of a redirect, nothing otherwise.
    pub open spec fn location_view(&self) -> Option<Seq<char>> {
        match self {
            ApiResponse::MovedPermanently { location } => Some(location@),
            ApiResponse::Found { location } => Some(location@),
            ApiResponse::SeeOther { location } => Some(location@),
            ApiResponse::TemporaryRedirect { location } => Some(location@),
            ApiResponse::PermanentRedirect { location } => Some(location@),
            _ => None,
        }
    }

    /// The body: the payload of a 200 or 201, the error body of an error,
    /// nothing otherwise.
    pub open spec fn body_shape(self) -> BodyShape<T> {
        match self {
            ApiResponse::Success(t) => BodyShape::Payload(t),
            ApiResponse::Created(t) => BodyShape::Payload(t),
            ApiResponse::BadRequest { code, message, details } => BodyShape::Json(error_body(code@, message@, opt_view(details))),
            ApiResponse::Unauthorized { code, message, details } => BodyShape::Json(error_body(code@, message@, opt_view(details))),
            ApiResponse::Forbidden { code, message, details } => BodyShape::Json(error_body(code@, message@, opt_view(details))),
            ApiResponse::NotFound { code, message, details } => BodyShape::Json(error_body(code@, message@, opt_view(details))),
            ApiResponse::Conflict { code, message, details } => BodyShape::Json(error_body(code@, message@, opt_view(details))),
            ApiResponse::UnprocessableEntity { code, message, details } => BodyShape::Json(error_body(code@, message@, opt_view(details))),
            ApiResponse::InternalError { code, message, details } => BodyShape::Json(error_body(code@, message@, opt_view(details))),
            ApiResponse::ServiceUnavailable { code, message, details } => BodyShape::Json(error_body(code@, message@, opt_view(details))),
            ApiResponse::ClientError { code, message, details, .. } => BodyShape::Json(error_body(code@, message@, opt_view(details))),
            ApiResponse::ServerError { code, message, details, .. } => BodyShape::Json(error_body(code@, message@, opt_view(details))),
            _ => BodyShape::Empty,
        }
    }

    /// The status code of the outcome.
    pub fn status_code(&self) -> (r: u16)
        ensures
            r == self.status(),
    {
        match self {
            ApiResponse::Success(_) => 200,
            ApiResponse::Created(_) => 201,
            ApiResponse::NoContent => 204,
            ApiResponse::MovedPermanently { .. } => 301,
            ApiResponse::Found { .. } => 302,
            ApiResponse::SeeOther { .. } => 303,
            ApiResponse::TemporaryRedirect { .. } => 307,
            ApiResponse::PermanentRedirect { .. } => 308,
            ApiResponse::BadRequest { .. } => 400,
            ApiResponse::Unauthorized { .. } => 401,
            ApiResponse::Forbidden { .. } => 403,
            ApiResponse::NotFound { .. } => 404,
            ApiResponse::Conflict { .. } => 409,
            ApiResponse::UnprocessableEntity { .. } => 422,
            ApiResponse::InternalError { .. } => 500,
            ApiResponse::ServiceUnavailable { .. } => 503,
            ApiResponse::ClientError { status, .. } => *status,
            ApiResponse::ServerError { status, .. } => *status,
        }
    }

    /// Converts the outcome into the status, `Location` header and body that
    /// the transport sends.
    pub fn into_wire(self) -> (r: WireResponse<T>)
        ensures
            r.status == self.status(),
            opt_view(r.location) == self.location_view(),
            r.body.shape() == self.body_shape(),
    {
        let status = self.status_code();
        match self {
            ApiResponse::Success(t) => WireResponse { status, location: None, body: WireBody::Payload(t) },
            ApiResponse::Created(t) => WireResponse { status, location: None, body: WireBody::Payload(t) },
            ApiResponse::NoContent => WireResponse { status, location: None, body: WireBody::Empty },
            ApiResponse::MovedPermanently { location } => WireResponse { status, location: Some(location), body: WireBody::Empty },
            ApiResponse::Found { location } => WireResponse { status, location: Some(location), body: WireBody::Empty },
            ApiResponse::SeeOther { location } => WireResponse { status, location: Some(location), body: WireBody::Empty },
            ApiResponse::TemporaryRedirect { location } => WireResponse { status, location: Some(location), body: WireBody::Empty },
            ApiResponse::PermanentRedirect { location } => WireResponse { status, location: Some(location), body: WireBody::Empty },
            ApiResponse::BadRequest { code, message, details } => WireResponse { status, location: None, body: WireBody::Json(render_error_body(code.as_str(), message.as_str(), opt_str(&details))) },
            ApiResponse::Unauthorized { code, message, details } => WireResponse { status, location: None, body: WireBody::Json(render_error_body(code.as_str(), message.as_str(), opt_str(&details))) },
            ApiResponse::Forbidden { code, message, details } => WireResponse { status, location: None, body: WireBody::Json(render_error_body(code.as_str(), message.as_str(), opt_str(&details))) },
            ApiResponse::NotFound { code, message, details } => WireResponse { status, location: None, body: WireBody::Json(render_error_body(code.as_str(), message.as_str(), opt_str(&details))) },
            ApiResponse::Conflict { code, message, details } => WireResponse { status, location: None, body: WireBody::Json(render_error_body(code.as_str(), message.as_str(), opt_str(&details))) },
            ApiResponse::UnprocessableEntity { code, message, details } => WireResponse { status, location: None, body: WireBody::Json(render_error_body(code.as_str(), message.as_str(), opt_str(&details))) },
            ApiResponse::InternalError { code, message, details } => WireResponse { status, location: None, body: WireBody::Json(render_error_body(code.as_str(), message.as_str(), opt_str(&details))) },
            ApiResponse::ServiceUnavailable { code, message, details } => WireResponse { status, location: None, body: WireBody::Json(render_error_body(code.as_str(), message.as_str(), opt_str(&details))) },
            ApiResponse::ClientError { code, message, details, .. } => WireResponse { status, location: None, body: WireBody::Json(render_error_body(code.as_str(), message.as_str(), opt_str(&details))) },
            ApiResponse::ServerError { code, message, details, .. } => WireResponse { status, location: None, body: WireBody::Json(render_error_body(code.as_str(), message.as_str(), opt_str(&details))) },
        }
    }
}

/// The view of an optional string.
pub open spec fn opt_view(o: Option<String>) -> Option<Seq<char>> {
    match o {
        Some(s) => Some(s@),
        None => None,
    }
}

fn opt_str(o: &Option<String>) -> (r: Option<&str>)
    ensures
        match r {
            Some(s) => opt_view(*o) == Some(s@),
            None => o is None,
        },
{
    match o {
        Some(s) => Some(s.as_str()),
        None => None,
    }
}

/// Two outcomes with the same tag and the same field values, as a handler
/// would build them twice.
pub open spec fn same_outcome<T>(a: &ApiResponse<T>, b: &ApiResponse<T>) -> bool {
    match (a, b) {
            (ApiResponse::Success(x), ApiResponse::Success(y)) => x == y,
            (ApiResponse::Created(x), ApiResponse::Created(y)) => x == y,
            (ApiResponse::NoContent, ApiResponse::NoContent) => true,
            (ApiResponse::MovedPermanently { location: x }, ApiResponse::MovedPermanently { location: y }) => x@ == y@,
            (ApiResponse::Found { location: x }, ApiResponse::Found { location: y }) => x@ == y@,
            (ApiResponse::SeeOther { location: x }, ApiResponse::SeeOther { location: y }) => x@ == y@,
            (ApiResponse::TemporaryRedirect { location: x }, ApiResponse::TemporaryRedirect { location: y }) => x@ == y@,
            (ApiResponse::PermanentRedirect { location: x }, ApiResponse::PermanentRedirect { location: y }) => x@ == y@,
            (ApiResponse::BadRequest { code: c1, message: m1, details: d1 }, ApiResponse::BadRequest { code: c2, message: m2, details: d2 }) => c1@ == c2@ && m1@ == m2@ && opt_view(*d1) == opt_view(*d2),
            (ApiResponse::Unauthorized { code: c1, message: m1, details: d1 }, ApiResponse::Unauthorized { code: c2, message: m2, details: d2 }) => c1@ == c2@ && m1@ == m2@ && opt_view(*d1) == opt_view(*d2),
            (ApiResponse::Forbidden { code: c1, message: m1, details: d1 }, ApiResponse::Forbidden { code: c2, message: m2, details: d2 }) => c1@ == c2@ && m1@ == m2@ && opt_view(*d1) == opt_view(*d2),
            (ApiResponse::NotFound { code: c1, message: m1, details: d1 }, ApiResponse::NotFound { code: c2, message: m2, details: d2 }) => c1@ == c2@ && m1@ == m2@ && opt_view(*d1) == opt_view(*d2),
            (ApiResponse::Conflict { code: c1, message: m1, details: d1 }, ApiResponse::Conflict { code: c2, message: m2, details: d2 }) => c1@ == c2@ && m1@ == m2@ && opt_view(*d1) == opt_view(*d2),
            (ApiResponse::UnprocessableEntity { code: c1, message: m1, details: d1 }, ApiResponse::UnprocessableEntity { code: c2, message: m2, details: d2 }) => c1@ == c2@ && m1@ == m2@ && opt_view(*d1) == opt_view(*d2),
            (ApiResponse::InternalError { code: c1, message: m1, details: d1 }, ApiResponse::InternalError { code: c2, message: m2, details: d2 }) => c1@ == c2@ && m1@ == m2@ && opt_view(*d1) == opt_view(*d2),
            (ApiResponse::ServiceUnavailable { code: c1, message: m1, details: d1 }, ApiResponse::ServiceUnavailable { code: c2, message: m2, details: d2 }) => c1@ == c2@ && m1@ == m2@ && opt_view(*d1) == opt_view(*d2),
            (ApiResponse::ClientError { status: s1, code: c1, message: m1, details: d1 }, ApiResponse::ClientError { status: s2, code: c2, message: m2, details: d2 }) => s1 == s2 && c1@ == c2@ && m1@ == m2@ && opt_view(*d1) == opt_view(*d2),
            (ApiResponse::ServerError { status: s1, code: c1, message: m1, details: d1 }, ApiResponse::ServerError { status: s2, code: c2, message: m2, details: d2 }) => s1 == s2 && c1@ == c2@ && m1@ == m2@ && opt_view(*d1) == opt_view(*d2),
            _ => false,
    }
}

/// The status code of every outcome is the one of its tag's family: 2xx for
/// a success, 3xx for a redirect, 4xx for a client error, 5xx for a server
/// error.
pub proof fn status_follows_family<T>(r: ApiResponse<T>)
    requires
        r.wf(),
    ensures
        r.is_success() <==> 200 <= r.status() <= 299,
        r.is_redirect() <==> 300 <= r.status() <= 399,
        r.is_client_error() <==> 400 <= r.status() <= 499,
        r.is_server_error() <==> 500 <= r.status() <= 599,
{
}

/// Building the same outcome twice and converting both gives the same status,
/// `Location` header and body.
pub proof fn conversion_is_repeatable<T>(a: ApiResponse<T>, b: ApiResponse<T>)
    requires
        same_outcome(&a, &b),
    ensures
        a.status() == b.status(),
        a.location_view() == b.location_view(),
        a.body_shape() == b.body_shape(),
{
}

} // verus!
