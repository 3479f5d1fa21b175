use uncovr::params::{ParamError, Path};
use uncovr::response::{render_error_body, ApiResponse, Error, Response, WireBody};

fn json_of<T>(body: WireBody<T>) -> String {
    match body {
        WireBody::Json(s) => s,
        _ => panic!("expected a JSON body"),
    }
}

#[test]
fn success_statuses() {
    assert_eq!(Response::ok(1).status_code(), 200);
    assert_eq!(Response::created(1).status_code(), 201);
    assert_eq!(Response::<i32>::no_content().status_code(), 204);
    let w = Response::ok("x").into_envelope().into_wire();
    assert_eq!(w.status, 200);
    assert!(matches!(w.body, WireBody::Payload("x")));
    let w = Response::<i32>::no_content().into_envelope().into_wire();
    assert_eq!(w.status, 204);
    assert!(matches!(w.body, WireBody::Empty));
}

#[test]
fn error_statuses() {
    let cases = vec![
        (Error::bad_request("c", "m"), 400),
        (Error::unauthorized("c", "m"), 401),
        (Error::forbidden("c", "m"), 403),
        (Error::not_found("c", "m"), 404),
        (Error::conflict("c", "m"), 409),
        (Error::unprocessable("c", "m"), 422),
        (Error::internal("c", "m"), 500),
        (Error::service_unavailable("c", "m"), 503),
    ];
    for (e, status) in cases {
        assert_eq!(e.status_code(), status);
        assert_eq!(e.code(), "c");
        assert_eq!(e.message(), "m");
        let w = e.into_envelope::<()>().into_wire();
        assert_eq!(w.status, status);
        assert_eq!(json_of(w.body), "{\"code\":\"c\",\"message\":\"m\"}");
    }
}

#[test]
fn redirects_carry_location_and_no_body() {
    let cases = vec![
        (ApiResponse::<()>::MovedPermanently { location: "/a".to_string() }, 301),
        (ApiResponse::<()>::Found { location: "/a".to_string() }, 302),
        (ApiResponse::<()>::SeeOther { location: "/a".to_string() }, 303),
        (ApiResponse::<()>::TemporaryRedirect { location: "/a".to_string() }, 307),
        (ApiResponse::<()>::PermanentRedirect { location: "/a".to_string() }, 308),
    ];
    for (r, status) in cases {
        let w = r.into_wire();
        assert_eq!(w.status, status);
        assert_eq!(w.location, Some("/a".to_string()));
        assert!(matches!(w.body, WireBody::Empty));
    }
}

#[test]
fn custom_errors_keep_their_status() {
    let c = ApiResponse::<()>::ClientError {
        status: 418,
        code: "teapot".to_string(),
        message: "short and stout".to_string(),
        details: None,
    };
    assert_eq!(c.status_code(), 418);
    let s = ApiResponse::<()>::ServerError {
        status: 502,
        code: "upstream".to_string(),
        message: "bad gateway".to_string(),
        details: Some("{\"retry\":true}".to_string()),
    };
    let w = s.into_wire();
    assert_eq!(w.status, 502);
    assert_eq!(
        json_of(w.body),
        "{\"code\":\"upstream\",\"message\":\"bad gateway\",\"details\":{\"retry\":true}}"
    );
}

#[test]
fn not_found_scenario() {
    let r = ApiResponse::<()>::NotFound {
        code: "user_not_found".to_string(),
        message: "User not found".to_string(),
        details: None,
    };
    let w = r.into_wire();
    assert_eq!(w.status, 404);
    assert_eq!(w.location, None);
    assert_eq!(json_of(w.body), "{\"code\":\"user_not_found\",\"message\":\"User not found\"}");
}

#[test]
fn same_outcome_converts_the_same() {
    let a = Error::conflict("dup", "already there").into_envelope::<()>().into_wire();
    let b = Error::conflict("dup", "already there").into_envelope::<()>().into_wire();
    assert_eq!(a.status, b.status);
    assert_eq!(json_of(a.body), json_of(b.body));
}

#[test]
fn escaping_in_bodies() {
    let body = render_error_body("a\"b", "line\nnext\\ \t\u{1}\u{8}\u{c}\r é", None);
    assert_eq!(
        body,
        "{\"code\":\"a\\\"b\",\"message\":\"line\\nnext\\\\ \\t\\u0001\\b\\f\\r é\"}"
    );
    assert_eq!(render_error_body("", "\u{1f}", Some("[1]")), "{\"code\":\"\",\"message\":\"\\u001f\",\"details\":[1]}");
}

#[test]
fn details_constructors() {
    let e = Error::bad_request_with_details("bad", "m", "{\"f\":1}");
    assert_eq!(e.details(), Some("{\"f\":1}"));
    assert_eq!(e.status_code(), 400);
    let u = Error::unprocessable_with_details("validation_failed", "Request validation failed", "{}");
    assert_eq!(u.status_code(), 422);
    assert_eq!(u.to_body(), "{\"code\":\"validation_failed\",\"message\":\"Request validation failed\",\"details\":{}}");
    assert_eq!(Error::not_found("a", "b").details(), None);
}

#[test]
fn conversions_from_local_errors() {
    let p = Path::new(vec![("id".to_string(), "x".to_string())]);
    let err: ParamError = p.parse::<u64>("id").unwrap_err();
    let e: Error = err.into();
    assert_eq!(e.status_code(), 400);
    assert_eq!(e.code(), "invalid_parameter");
    assert_eq!(e.message(), "Invalid parameter 'id': cannot parse 'x' as u64");

    let j = Error::json_parse_error("EOF while parsing a value at line 1 column 0");
    assert_eq!(j.code(), "json_parse_error");
    assert_eq!(j.message(), "Failed to parse JSON: EOF while parsing a value at line 1 column 0");
    let n = Error::number_parse_error("invalid digit found in string");
    assert_eq!(n.code(), "parse_error");
    assert_eq!(n.message(), "Failed to parse number: invalid digit found in string");
    let b = Error::bool_parse_error("provided string was not `true` or `false`");
    assert_eq!(b.message(), "Failed to parse boolean: provided string was not `true` or `false`");
    let io = Error::io_error();
    assert_eq!(io.status_code(), 500);
    assert_eq!(io.code(), "io_error");
    assert_eq!(io.message(), "Internal server error");
}

#[test]
fn error_text_for_people() {
    assert_eq!(Error::not_found("user_not_found", "No such user").to_message(), "Not Found [user_not_found]: No such user");
    assert_eq!(Error::unprocessable("v", "m").to_message(), "Unprocessable Entity [v]: m");
    assert_eq!(Error::internal("x", "y").to_message(), "Internal Server Error [x]: y");
}

#[test]
fn validation_failure_details() {
    let fields = vec![
        ("name".to_string(), vec!["too short".to_string(), "has \"quotes\"".to_string()]),
        ("age".to_string(), vec![]),
        ("email".to_string(), vec!["invalid".to_string()]),
    ];
    let e = Error::validation_failed(&fields);
    assert_eq!(e.status_code(), 422);
    assert_eq!(e.code(), "validation_failed");
    assert_eq!(e.message(), "Request validation failed");
    assert_eq!(
        e.details(),
        Some("{\"name\":[\"too short\",\"has \\\"quotes\\\"\"],\"email\":[\"invalid\"]}")
    );
    let none = Error::validation_failed(&vec![("a".to_string(), vec![])]);
    assert_eq!(none.details(), Some("{}"));
}
