use std::sync::Arc;
use uncovr::config::app::AppConfig;
use uncovr::config::logging::{LogLevel, Logging};
use uncovr::endpoint::{ApiKeyLocation, HttpMethod, Meta, Route, SecurityScheme};
use uncovr::params::{Path, Query};
use uncovr::response::{ApiResponse, WireBody};
use uncovr::server::{
    build_context, docs_routes, latency_text, response_log_level, global_security_schemes, openapi_for_app, operation_doc,
    scheme_doc, security_scheme_name, server_url_for_bind, traces_requests, BodyInput, Context,
    MethodBranch, ParamLocation, RouteRegistry, SchemeDoc, ServerSettings,
};

fn pairs(items: &[(&str, &str)]) -> Vec<(String, String)> {
    items.iter().map(|(k, v)| (k.to_string(), v.to_string())).collect()
}

#[test]
fn test_context_creation() {
    let ctx = Context::<()> {
        req: (),
        headers: Default::default(),
        path: Path::new(Default::default()),
        query: Query::new(Default::default()),
        extensions: Default::default(),
    };

    assert_eq!(ctx.path.get_string("test"), None);
}

#[test]
fn method_branches() {
    assert_eq!(MethodBranch::for_method(HttpMethod::GET), MethodBranch::Get);
    assert_eq!(MethodBranch::for_method(HttpMethod::POST), MethodBranch::Post);
    assert_eq!(MethodBranch::for_method(HttpMethod::PUT), MethodBranch::Put);
    assert_eq!(MethodBranch::for_method(HttpMethod::PATCH), MethodBranch::Patch);
    assert_eq!(MethodBranch::for_method(HttpMethod::DELETE), MethodBranch::Delete);
    assert_eq!(MethodBranch::for_method(HttpMethod::OPTIONS), MethodBranch::Get);
    assert_eq!(MethodBranch::for_method(HttpMethod::HEAD), MethodBranch::Get);
    assert!(!MethodBranch::Get.decodes_body());
    assert!(MethodBranch::Post.decodes_body());
    assert!(MethodBranch::Delete.decodes_body());
}

#[test]
fn get_user_by_id_scenario() {
    let mut route = Route::get("/users/:id");
    route.path_param("id").required();
    let branch = MethodBranch::for_method(route.method);
    let ctx = build_context(
        branch,
        pairs(&[("id", "42")]),
        Vec::new(),
        BodyInput::<String>::Absent,
        String::new(),
        Arc::new(Default::default()),
        Default::default(),
    )
    .unwrap();
    assert_eq!(ctx.path.get_u64("id"), Some(42));
}

#[test]
fn get_route_ignores_body() {
    let ctx = build_context(
        MethodBranch::Get,
        Vec::new(),
        pairs(&[("page", "2")]),
        BodyInput::Malformed("not json".to_string()),
        7u32,
        Arc::new(Default::default()),
        Default::default(),
    )
    .unwrap();
    assert_eq!(ctx.req, 7);
    assert_eq!(ctx.query.get("page"), Some("2"));
}

#[test]
fn echo_scenario() {
    let ctx = build_context(
        MethodBranch::Post,
        Vec::new(),
        Vec::new(),
        BodyInput::Decoded("hi".to_string()),
        String::new(),
        Arc::new(Default::default()),
        Default::default(),
    )
    .unwrap();
    assert_eq!(ctx.req, "hi");
    let reply = ApiResponse::Success(format!("{{\"echo\":\"{}\"}}", ctx.req));
    let wire = reply.into_wire();
    assert_eq!(wire.status, 200);
    match wire.body {
        WireBody::Payload(p) => assert_eq!(p, "{\"echo\":\"hi\"}"),
        _ => panic!("expected a payload"),
    }
}

#[test]
fn malformed_body_short_circuits() {
    let r = build_context(
        MethodBranch::Post,
        Vec::new(),
        Vec::new(),
        BodyInput::<String>::Malformed("missing field `name` at line 1 column 2".to_string()),
        String::new(),
        Arc::new(Default::default()),
        Default::default(),
    );
    let err = match r {
        Err(e) => e,
        Ok(_) => panic!("the handler must not run"),
    };
    let wire = err.into_envelope::<()>().into_wire();
    assert_eq!(wire.status, 400);
    match wire.body {
        WireBody::Json(s) => assert_eq!(
            s,
            "{\"code\":\"json_parse_error\",\"message\":\"Failed to parse JSON: missing field `name` at line 1 column 2\"}"
        ),
        _ => panic!("expected a JSON body"),
    }
    let missing = build_context(
        MethodBranch::Put,
        Vec::new(),
        Vec::new(),
        BodyInput::<String>::Absent,
        String::new(),
        Arc::new(Default::default()),
        Default::default(),
    );
    assert!(missing.is_err());
}

#[test]
fn raw_values_reach_the_handler_unchanged() {
    let raw = pairs(&[("a", "1"), ("b", "x y"), ("c", "")]);
    let ctx = build_context(
        MethodBranch::Get,
        raw.clone(),
        raw.clone(),
        BodyInput::<()>::Absent,
        (),
        Arc::new(Default::default()),
        Default::default(),
    )
    .unwrap();
    for (k, v) in &raw {
        assert_eq!(ctx.path.get(k), Some(v.as_str()));
        assert_eq!(ctx.query.get(k), Some(v.as_str()));
    }
    assert_eq!(ctx.path.keys(), vec!["a", "b", "c"]);
}

#[test]
fn operation_from_route_and_meta() {
    let mut route = Route::get("/users/:id");
    route.query("page").desc("Page number");
    route.path_param("id").required();
    let meta = Meta::new()
        .summary("Get user")
        .describe("One user")
        .tag("users")
        .secured(SecurityScheme::Bearer)
        .secured(SecurityScheme::ApiKey { name: "K", location: ApiKeyLocation::Query });
    let op = operation_doc(&route, &meta);
    assert_eq!(op.parameters.len(), 2);
    assert_eq!(op.parameters[0].name, "page");
    assert_eq!(op.parameters[0].description, Some("Page number".to_string()));
    assert!(!op.parameters[0].required);
    assert_eq!(op.parameters[0].location, ParamLocation::Query);
    assert_eq!(op.parameters[0].schema_type, "string");
    assert_eq!(op.parameters[1].name, "id");
    assert!(op.parameters[1].required);
    assert_eq!(op.parameters[1].location, ParamLocation::Path);
    assert_eq!(op.summary, "Get user");
    assert_eq!(op.description, Some("One user".to_string()));
    assert_eq!(op.tags, vec!["users".to_string()]);
    assert_eq!(op.security, vec!["bearerAuth".to_string(), "apiKeyAuth".to_string()]);
    let bare = operation_doc(&Route::post("/x"), &Meta::new());
    assert_eq!(bare.summary, "");
    assert!(bare.parameters.is_empty());
}

#[test]
fn security_schemes() {
    assert_eq!(security_scheme_name(&SecurityScheme::Basic), "basicAuth");
    assert_eq!(security_scheme_name(&SecurityScheme::OAuth2 { scopes: vec![] }), "oauth2Auth");
    match scheme_doc(&SecurityScheme::ApiKey { name: "X-Key", location: ApiKeyLocation::Cookie }) {
        SchemeDoc::ApiKey { location, name, description } => {
            assert_eq!(location, ApiKeyLocation::Cookie);
            assert_eq!(name, "X-Key");
            assert_eq!(description, "API key in cookie");
        }
        _ => panic!("expected an API key scheme"),
    }
    let all = global_security_schemes();
    assert_eq!(all.len(), 3);
    assert_eq!(all[0].0, "bearerAuth");
    match &all[0].1 {
        SchemeDoc::Http { scheme, bearer_format, .. } => {
            assert_eq!(scheme, "bearer");
            assert_eq!(bearer_format.as_deref(), Some("JWT"));
        }
        _ => panic!("expected HTTP"),
    }
    match &all[2].1 {
        SchemeDoc::ApiKey { name, description, .. } => {
            assert_eq!(name, "X-API-Key");
            assert_eq!(description, "API key in header");
        }
        _ => panic!("expected an API key scheme"),
    }
}

#[test]
fn server_urls() {
    assert_eq!(server_url_for_bind("0.0.0.0:8080"), "http://localhost:8080");
    assert_eq!(server_url_for_bind("127.0.0.1:3000"), "http://127.0.0.1:3000");
    assert_eq!(server_url_for_bind("api.example.com:80"), "http://api.example.com:80");
    assert_eq!(server_url_for_bind("0.0.0.0"), "http://0.0.0.0");
}

#[test]
fn document_settings_from_app() {
    let plain = AppConfig::new("T", "1").bind("0.0.0.0:9000");
    let o = openapi_for_app(&plain).unwrap();
    assert_eq!(o.title, "T");
    assert_eq!(o.servers, vec![("http://localhost:9000".to_string(), "API Server".to_string())]);
    let with = AppConfig::new("T", "1").add_server("https://a", "A").add_server("https://b", "B");
    let o = openapi_for_app(&with).unwrap();
    assert_eq!(o.servers.len(), 2);
    assert_eq!(o.servers[1], ("https://b".to_string(), "B".to_string()));
    assert!(openapi_for_app(&AppConfig::new("T", "1").docs(false)).is_none());
}

#[test]
fn docs_paths() {
    let d = docs_routes(None);
    assert_eq!(d.docs_path, "/docs");
    assert_eq!(d.openapi_json_path, "/openapi.json");
    assert_eq!(d.ui_spec_path, "./openapi.json");
    let c = AppConfig::new("T", "1").docs_path("/swagger").openapi_json_path("spec.json");
    let d = docs_routes(Some(&c));
    assert_eq!(d.docs_path, "/swagger");
    assert_eq!(d.ui_spec_path, "./spec.json");
}

#[test]
fn settings_and_tracing() {
    let s = ServerSettings::new();
    assert_eq!(s.address, "127.0.0.1:3000");
    assert!(!traces_requests(s.logging.as_ref()));
    let s = s.with_config(AppConfig::new("T", "1").bind("0.0.0.0:1")).with_logging(Logging::development());
    assert_eq!(s.address, "0.0.0.0:1");
    assert!(s.openapi.is_some());
    assert!(traces_requests(s.logging.as_ref()));
    let s = s.bind("127.0.0.1:3001");
    assert_eq!(s.address, "127.0.0.1:3001");
    assert!(!traces_requests(Some(&Logging::development().log_requests(false))));
}

#[test]
fn response_logging() {
    assert_eq!(response_log_level(503), LogLevel::Error);
    assert_eq!(response_log_level(404), LogLevel::Warn);
    assert_eq!(response_log_level(200), LogLevel::Debug);
    assert_eq!(response_log_level(302), LogLevel::Debug);
    assert_eq!(latency_text(0), "0µs");
    assert_eq!(latency_text(999), "999µs");
    assert_eq!(latency_text(1000), "1ms");
    assert_eq!(latency_text(123456), "123ms");
    assert_eq!(latency_text(u64::MAX), "18446744073709551ms");
}

#[test]
fn repeated_registration_is_reported() {
    let mut r = RouteRegistry::new();
    assert!(!r.record("/users", HttpMethod::GET));
    assert!(!r.record("/users", HttpMethod::POST));
    assert!(r.record("/users", HttpMethod::GET));
    assert!(r.record("/users", HttpMethod::HEAD));
    assert!(!r.record("/posts", HttpMethod::GET));
}
