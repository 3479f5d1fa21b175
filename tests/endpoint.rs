use uncovr::endpoint::{Endpoint, HttpMethod, Meta, Route, SecurityScheme};

#[test]
fn test_http_method_as_str() {
    assert_eq!(HttpMethod::GET.as_str(), "get");
    assert_eq!(HttpMethod::POST.as_str(), "post");
    assert_eq!(HttpMethod::PUT.as_str(), "put");
    assert_eq!(HttpMethod::DELETE.as_str(), "delete");
}

#[test]
fn test_route_builders() {
    let route = Route::get("/users");
    assert_eq!(route.path, "/users");
    assert_eq!(route.method, HttpMethod::GET);

    let route = Route::post("/users");
    assert_eq!(route.method, HttpMethod::POST);
}

#[test]
fn test_route_with_params() {
    let mut route = Route::get("/users");
    route.query("page").required();
    route.query("limit");

    assert_eq!(route.query_params.len(), 2);
    assert_eq!(route.query_params[0].name, "page");
    assert!(route.query_params[0].required);
    assert_eq!(route.query_params[1].name, "limit");
    assert!(!route.query_params[1].required);
}

#[test]
fn test_meta_builder() {
    let meta = Meta::new()
        .summary("Test endpoint")
        .describe("This is a test")
        .tag("test")
        .tag("example")
        .deprecated();

    assert_eq!(meta.summary, Some("Test endpoint"));
    assert_eq!(meta.description, Some("This is a test"));
    assert_eq!(meta.tags.len(), 2);
    assert!(meta.deprecated);
}

struct TestEndpoint;

impl Endpoint for TestEndpoint {
    fn route(&self) -> Route {
        Route::get("/test")
    }
}

#[test]
fn test_endpoint_trait() {
    let endpoint = TestEndpoint;
    let route = endpoint.route();

    assert_eq!(route.path, "/test");
    assert_eq!(route.method, HttpMethod::GET);
}

#[test]
fn remaining_methods() {
    assert_eq!(HttpMethod::PATCH.as_str(), "patch");
    assert_eq!(HttpMethod::OPTIONS.as_str(), "options");
    assert_eq!(HttpMethod::HEAD.as_str(), "head");
    assert_eq!(Route::put("/a").method, HttpMethod::PUT);
    assert_eq!(Route::patch("/a").method, HttpMethod::PATCH);
    assert_eq!(Route::delete("/a").method, HttpMethod::DELETE);
    assert_eq!(Route::options("/a").method, HttpMethod::OPTIONS);
    assert_eq!(Route::head("/a").method, HttpMethod::HEAD);
}

#[test]
fn path_params_and_descriptions() {
    let mut route = Route::delete("/users/:id").param("id", "User ID");
    route.path_param("slug").desc("Slug");
    route.path_param("rev").required();
    route.query("notify").desc("Send a mail");
    assert_eq!(route.path_params.len(), 3);
    assert!(route.path_params[2].required);
    assert_eq!(route.path_params[2].description, None);
    assert_eq!(route.path_params[0].description, Some("User ID"));
    assert!(route.path_params[0].required);
    assert_eq!(route.path_params[1].name, "slug");
    assert_eq!(route.path_params[1].description, Some("Slug"));
    assert!(!route.path_params[1].required);
    assert_eq!(route.query_params[0].description, Some("Send a mail"));
    assert!(!route.query_params[0].required);
}

#[test]
fn meta_defaults_alias_and_security() {
    let meta = Meta::new();
    assert_eq!(meta.summary, None);
    assert!(meta.tags.is_empty());
    assert!(!meta.deprecated);
    let meta = Meta::new().description("Long").tag("x").tag("x").secured(SecurityScheme::Bearer);
    assert_eq!(meta.description, Some("Long"));
    assert_eq!(meta.tags, vec!["x", "x"]);
    assert_eq!(meta.security.len(), 1);
    let default_meta = TestEndpoint.meta();
    assert_eq!(default_meta.summary, None);
}
