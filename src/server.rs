//! Registration and dispatch: which branch a route's method takes, how a
//! request becomes a handler context, the API description operation of a
//! route, and the server settings that application settings give.
use crate::config::app::AppConfig;
use crate::config::logging::{LogLevel, Logging};
use crate::endpoint::{ApiKeyLocation, HttpMethod, Meta, Route, SecurityScheme};
use crate::openapi::{server_views, OpenApiConfig};
use crate::params::{distinct_names, pair_views, table_map, Path, Query};
use crate::response::{opt_view, Error};
use crate::text::{append, join2, owned, push_char, starts_with, str_eq, suffix_from};
use std::sync::Arc;
use vstd::prelude::*;

verus! {

/// `http::HeaderMap`: the request headers, carried to the handler as they are.
#[verifier::external_type_specification]
#[verifier::external_body]
#[verifier::reject_recursive_types(T)]
pub struct ExHeaderMap<T>(http::HeaderMap<T>);

/// `http::HeaderValue`: the value type of the header map.
#[verifier::external_type_specification]
#[verifier::external_body]
pub struct ExHeaderValue(http::HeaderValue);

/// `http::Extensions`: the request-scoped values set upstream, keyed by type.
#[verifier::external_type_specification]
#[verifier::external_body]
pub struct ExExtensions(http::Extensions);

/// The dispatch branch of a route.
#[derive(Debug, Clone, Copy, PartialEq, Eq, Structural)]
pub enum MethodBranch {
    Get,
    Post,
    Put,
    Patch,
    Delete,
}

/// The branch of each method: methods without a branch of their own
/// (`OPTIONS`, `HEAD`) are served as `GET`.
pub open spec fn branch_of(method: HttpMethod) -> MethodBranch {
    match method {
        HttpMethod::POST => MethodBranch::Post,
        HttpMethod::PUT => MethodBranch::Put,
        HttpMethod::PATCH => MethodBranch::Patch,
        HttpMethod::DELETE => MethodBranch::Delete,
        _ => MethodBranch::Get,
    }
}

impl MethodBranch {
    /// The branch that serves routes declared with `method`.
    pub fn for_method(method: HttpMethod) -> (r: Self)
        ensures
            r == branch_of(method),
    {
        match method {
            HttpMethod::POST => MethodBranch::Post,
            HttpMethod::PUT => MethodBranch::Put,
            HttpMethod::PATCH => MethodBranch::Patch,
            HttpMethod::DELETE => MethodBranch::Delete,
            _ => MethodBranch::Get,
        }
    }

    /// Whether requests on this branch carry a body to decode: all but `GET`.
    pub fn decodes_body(&self) -> (r: bool)
        ensures
            r == (*self != MethodBranch::Get),
    {
        match self {
            MethodBranch::Get => false,
            _ => true,
        }
    }
}

/// What a handler gets for one request: the decoded body, the headers, the
/// path and query parameters and the request-scoped values set upstream.
pub struct Context<Req> {
    pub req: Req,
    pub headers: Arc<http::HeaderMap>,
    pub path: Path,
    pub query: Query,
    pub extensions: http::Extensions,
}

impl<Req> Context<Req> {
    /// A context from its parts.
    pub fn new(req: Req, headers: Arc<http::HeaderMap>, path: Path, query: Query, extensions: http::Extensions) -> (r: Self)
        ensures
            r.req == req,
            r.path@ == path@,
            r.query@ == query@,
    {
        Context { req, headers, path, query, extensions }
    }
}

/// The body of a request as the transport read it.
pub enum BodyInput<Req> {
    /// No body was read (a `GET` request).
    Absent,
    /// The body decoded to a request value.
    Decoded(Req),
    /// The body did not decode; the decoder's account.
    Malformed(String),
}

/// Builds the context of a request from the raw path and query parameters,
/// the body as read, and the request type's default value, which a `GET`
/// branch hands over without looking at any body. A body that does not decode
/// gives a 400 `json_parse_error` before the handler runs; on a branch with a
/// body, a missing body counts as one that does not decode.
pub fn build_context<Req>(
    branch: MethodBranch,
    raw_path: Vec<(String, String)>,
    raw_query: Vec<(String, String)>,
    body: BodyInput<Req>,
    default_req: Req,
    headers: Arc<http::HeaderMap>,
    extensions: http::Extensions,
) -> (r: Result<Context<Req>, Error>)
    ensures
        branch == MethodBranch::Get ==> (r matches Ok(ctx) && ctx.req == default_req),
        branch != MethodBranch::Get ==> match body {
            BodyInput::Decoded(v) => (r matches Ok(ctx) && ctx.req == v),
            BodyInput::Malformed(m) => (r matches Err(e) && e is BadRequest
                && e.code_view() == "json_parse_error"@
                && e.message_view() == "Failed to parse JSON: "@ + m@),
            BodyInput::Absent => (r matches Err(e) && e is BadRequest
                && e.code_view() == "json_parse_error"@
                && e.message_view() == "Failed to parse JSON: "@ + "request body is missing"@),
        },
        r matches Ok(ctx) ==> (ctx.path@ == table_map(pair_views(raw_path@))
            && ctx.query@ == table_map(pair_views(raw_query@))),
{
    let req = match branch {
        MethodBranch::Get => default_req,
        _ => match body {
            BodyInput::Decoded(v) => v,
            BodyInput::Malformed(m) => {
                return Err(Error::json_parse_error(m.as_str()));
            },
            BodyInput::Absent => {
                return Err(Error::json_parse_error("request body is missing"));
            },
        },
    };
    Ok(Context::new(req, headers, Path::new(raw_path), Query::new(raw_query), extensions))
}

/// Parameters that reach a handler are the request's own: with distinct
/// names, each raw name/value pair of the request is found unchanged in the
/// parameter map that the context's store is built from, and the map holds no
/// other names.
pub proof fn request_parameters_round_trip(raw: Seq<(Seq<char>, Seq<char>)>, i: int)
    requires
        distinct_names(raw),
        0 <= i < raw.len(),
    ensures
        table_map(raw).contains_key(raw[i].0),
        table_map(raw)[raw[i].0] == raw[i].1,
        forall|k: Seq<char>| #[trigger] table_map(raw).contains_key(k) ==> exists|j: int| 0 <= j < raw.len() && raw[j].0 == k,
{
    crate::params::lemma_table_value(raw, i);
    assert forall|k: Seq<char>| #[trigger] table_map(raw).contains_key(k) implies exists|j: int| 0 <= j < raw.len() && raw[j].0 == k by {
        crate::params::lemma_table_dom(raw, k);
    }
}

/// Where a documented parameter is carried.
#[derive(Debug, Clone, Copy, PartialEq, Eq, Structural)]
pub enum ParamLocation {
    Query,
    Path,
}

/// One parameter of an API description operation. Every parameter is
/// documented with the schema type `string`.
#[derive(Debug, Clone)]
pub struct ParamDoc {
    pub name: String,
    pub description: Option<String>,
    pub required: bool,
    pub location: ParamLocation,
    pub schema_type: String,
}

fn opt_static(o: Option<&'static str>) -> (r: Option<String>)
    ensures
        opt_view(r) == match o {
            Some(s) => Some(s@),
            None => None::<Seq<char>>,
        },
{
    match o {
        Some(s) => Some(owned(s)),
        None => None,
    }
}

/// The view of an optional static string.
pub open spec fn opt_static_view(o: Option<&'static str>) -> Option<Seq<char>> {
    match o {
        Some(s) => Some(s@),
        None => None,
    }
}

/// The documented parameter has the given name, description, requirement and
/// place, and the type `string`.
pub open spec fn documents(d: ParamDoc, name: &'static str, description: Option<&'static str>, required: bool, location: ParamLocation) -> bool {
    &&& d.name@ == name@
    &&& opt_view(d.description) == opt_static_view(description)
    &&& d.required == required
    &&& d.location == location
    &&& d.schema_type@ == "string"@
}

/// The documentation of one parameter.
pub fn param_doc(name: &'static str, description: Option<&'static str>, required: bool, location: ParamLocation) -> (r: ParamDoc)
    ensures
        documents(r, name, description, required, location),
{
    ParamDoc {
        name: owned(name),
        description: opt_static(description),
        required,
        location,
        schema_type: owned("string"),
    }
}

/// The API description operation of one route.
#[derive(Debug, Clone)]
pub struct OperationDoc {
    /// The query parameters in order, then the path parameters in order.
    pub parameters: Vec<ParamDoc>,
    pub summary: String,
    pub description: Option<String>,
    pub tags: Vec<String>,
    pub deprecated: bool,
    /// The names of the required security schemes, in order.
    pub security: Vec<String>,
}

/// The name under which a security scheme is declared in the document.
pub open spec fn scheme_name(s: SecurityScheme) -> Seq<char> {
    match s {
        SecurityScheme::Bearer => "bearerAuth"@,
        SecurityScheme::Basic => "basicAuth"@,
        SecurityScheme::ApiKey { .. } => "apiKeyAuth"@,
        SecurityScheme::OAuth2 { .. } => "oauth2Auth"@,
    }
}

/// The name under which a security scheme is declared in the document.
pub fn security_scheme_name(scheme: &SecurityScheme) -> (r: &'static str)
    ensures
        r@ == scheme_name(*scheme),
{
    match scheme {
        SecurityScheme::Bearer => "bearerAuth",
        SecurityScheme::Basic => "basicAuth",
        SecurityScheme::ApiKey { .. } => "apiKeyAuth",
        SecurityScheme::OAuth2 { .. } => "oauth2Auth",
    }
}

/// Builds the operation of a route from its parameters and documentation:
/// every query and path parameter, the summary (empty when none was given),
/// the description, the tags in order and the required security schemes.
pub fn operation_doc(route: &Route, meta: &Meta) -> (r: OperationDoc)
    ensures
        r.parameters@.len() == route.query_params@.len() + route.path_params@.len(),
        forall|i: int| 0 <= i < route.query_params@.len() ==> documents(#[trigger] r.parameters@[i],
            route.query_params@[i].name, route.query_params@[i].description, route.query_params@[i].required, ParamLocation::Query),
        forall|i: int| 0 <= i < route.path_params@.len() ==> documents(#[trigger] r.parameters@[route.query_params@.len() + i],
            route.path_params@[i].name, route.path_params@[i].description, route.path_params@[i].required, ParamLocation::Path),
        r.summary@ == match meta.summary {
            Some(s) => s@,
            None => Seq::<char>::empty(),
        },
        opt_view(r.description) == opt_static_view(meta.description),
        r.tags@.len() == meta.tags@.len(),
        forall|i: int| 0 <= i < meta.tags@.len() ==> #[trigger] r.tags@[i]@ == meta.tags@[i]@,
        r.deprecated == meta.deprecated,
        r.security@.len() == meta.security@.len(),
        forall|i: int| 0 <= i < meta.security@.len() ==> #[trigger] r.security@[i]@ == scheme_name(meta.security@[i]),
{
    let mut parameters: Vec<ParamDoc> = Vec::new();
    let nq = route.query_params.len();
    let mut i: usize = 0;
    while i < nq
        invariant
            nq == route.query_params@.len(),
            i <= nq,
            parameters@.len() == i,
            forall|j: int| 0 <= j < i ==> documents(#[trigger] parameters@[j],
                route.query_params@[j].name, route.query_params@[j].description, route.query_params@[j].required, ParamLocation::Query),
        decreases nq - i,
    {
        let p = route.query_params[i];
        parameters.push(param_doc(p.name, p.description, p.required, ParamLocation::Query));
        i = i + 1;
    }
    let np = route.path_params.len();
    let mut k: usize = 0;
    while k < np
        invariant
            nq == route.query_params@.len(),
            np == route.path_params@.len(),
            k <= np,
            parameters@.len() == nq + k,
            forall|j: int| 0 <= j < nq ==> documents(#[trigger] parameters@[j],
                route.query_params@[j].name, route.query_params@[j].description, route.query_params@[j].required, ParamLocation::Query),
            forall|j: int| 0 <= j < k ==> documents(#[trigger] parameters@[nq + j],
                route.path_params@[j].name, route.path_params@[j].description, route.path_params@[j].required, ParamLocation::Path),
        decreases np - k,
    {
        let p = route.path_params[k];
        parameters.push(param_doc(p.name, p.description, p.required, ParamLocation::Path));
        proof {
            assert(parameters@[nq + k] == parameters@.last());
        }
        k = k + 1;
    }
    let summary = match meta.summary {
        Some(s) => owned(s),
        None => String::new(),
    };
    let mut tags: Vec<String> = Vec::new();
    let mut t: usize = 0;
    while t < meta.tags.len()
        invariant
            t <= meta.tags@.len(),
            tags@.len() == t,
            forall|j: int| 0 <= j < t ==> #[trigger] tags@[j]@ == meta.tags@[j]@,
        decreases meta.tags@.len() - t,
    {
        tags.push(owned(meta.tags[t]));
        t = t + 1;
    }
    let mut security: Vec<String> = Vec::new();
    let mut s: usize = 0;
    while s < meta.security.len()
        invariant
            s <= meta.security@.len(),
            security@.len() == s,
            forall|j: int| 0 <= j < s ==> #[trigger] security@[j]@ == scheme_name(meta.security@[j]),
        decreases meta.security@.len() - s,
    {
        security.push(owned(security_scheme_name(&meta.security[s])));
        s = s + 1;
    }
    OperationDoc {
        parameters,
        summary,
        description: opt_static(meta.description),
        tags,
        deprecated: meta.deprecated,
        security,
    }
}

/// A security scheme as the document declares it.
#[derive(Debug, Clone)]
pub enum SchemeDoc {
    /// HTTP authentication with the given scheme.
    Http { scheme: String, bearer_format: Option<String>, description: String },
    /// An API key under a name.
    ApiKey { location: ApiKeyLocation, name: String, description: String },
    /// OAuth2, with its flows left to the endpoint's own documentation.
    OAuth2 { description: String },
}

/// How a place of an API key is named in a description.
pub open spec fn location_words(l: ApiKeyLocation) -> Seq<char> {
    match l {
        ApiKeyLocation::Header => "header"@,
        ApiKeyLocation::Query => "query parameter"@,
        ApiKeyLocation::Cookie => "cookie"@,
    }
}

/// The document's declaration of each security scheme.
pub open spec fn scheme_doc_matches(s: SecurityScheme, d: SchemeDoc) -> bool {
    match s {
        SecurityScheme::Bearer => d matches SchemeDoc::Http { scheme, bearer_format, description }
            && scheme@ == "bearer"@ && opt_view(bearer_format) == Some("JWT"@)
            && description@ == "Bearer token authentication"@,
        SecurityScheme::Basic => d matches SchemeDoc::Http { scheme, bearer_format, description }
            && scheme@ == "basic"@ && bearer_format is None
            && description@ == "HTTP Basic authentication"@,
        SecurityScheme::ApiKey { name, location } => d matches SchemeDoc::ApiKey { location: l, name: n, description }
            && l == location && n@ == name@ && description@ == "API key in "@ + location_words(location),
        SecurityScheme::OAuth2 { .. } => d matches SchemeDoc::OAuth2 { description }
            && description@ == "OAuth2 authentication"@,
    }
}

fn location_text(l: ApiKeyLocation) -> (r: &'static str)
    ensures
        r@ == location_words(l),
{
    match l {
        ApiKeyLocation::Header => "header",
        ApiKeyLocation::Query => "query parameter",
        ApiKeyLocation::Cookie => "cookie",
    }
}

/// The document's declaration of a security scheme.
pub fn scheme_doc(scheme: &SecurityScheme) -> (r: SchemeDoc)
    ensures
        scheme_doc_matches(*scheme, r),
{
    match scheme {
        SecurityScheme::Bearer => SchemeDoc::Http {
            scheme: owned("bearer"),
            bearer_format: Some(owned("JWT")),
            description: owned("Bearer token authentication"),
        },
        SecurityScheme::Basic => SchemeDoc::Http {
            scheme: owned("basic"),
            bearer_format: None,
            description: owned("HTTP Basic authentication"),
        },
        SecurityScheme::ApiKey { name, location } => SchemeDoc::ApiKey {
            location: *location,
            name: owned(name),
            description: join2("API key in ", location_text(*location)),
        },
        SecurityScheme::OAuth2 { .. } => SchemeDoc::OAuth2 { description: owned("OAuth2 authentication") },
    }
}

/// The schemes that every document declares: bearer, basic, and an API key
/// in the `X-API-Key` header, under their names.
pub fn global_security_schemes() -> (r: Vec<(String, SchemeDoc)>)
    ensures
        r@.len() == 3,
        r@[0].0@ == "bearerAuth"@ && scheme_doc_matches(SecurityScheme::Bearer, r@[0].1),
        r@[1].0@ == "basicAuth"@ && scheme_doc_matches(SecurityScheme::Basic, r@[1].1),
        r@[2].0@ == "apiKeyAuth"@ && scheme_doc_matches(
            SecurityScheme::ApiKey { name: "X-API-Key", location: ApiKeyLocation::Header },
            r@[2].1,
        ),
{
    let mut r: Vec<(String, SchemeDoc)> = Vec::new();
    r.push((owned("bearerAuth"), scheme_doc(&SecurityScheme::Bearer)));
    r.push((owned("basicAuth"), scheme_doc(&SecurityScheme::Basic)));
    r.push((owned("apiKeyAuth"), scheme_doc(&SecurityScheme::ApiKey { name: "X-API-Key", location: ApiKeyLocation::Header })));
    r
}

/// The server URL that a bind address stands for: `0.0.0.0:<port>` is
/// reached as `http://localhost:<port>`, any other address as itself.
pub open spec fn server_url_of(bind: Seq<char>) -> Seq<char> {
    if crate::text::has_prefix(bind, "0.0.0.0:"@) {
        "http://localhost:"@ + bind.subrange(8, bind.len() as int)
    } else {
        "http://"@ + bind
    }
}

/// The server URL that a bind address stands for.
pub fn server_url_for_bind(bind: &str) -> (r: String)
    ensures
        r@ == server_url_of(bind@),
{
    if starts_with(bind, "0.0.0.0:") {
        proof {
            reveal_strlit("0.0.0.0:");
        }
        let port = suffix_from(bind, 8);
        join2("http://localhost:", port.as_str())
    } else {
        join2("http://", bind)
    }
}

/// The document settings that application settings give: their name,
/// version and description, and their server entries, or when they have none
/// a single `API Server` entry at the URL of the bind address.
pub open spec fn app_document(config: AppConfig, o: OpenApiConfig) -> bool {
    &&& o.title@ == config.name@
    &&& o.version@ == config.version@
    &&& opt_view(o.description) == Some(config.description@)
    &&& o.terms_of_service is None
    &&& o.contact_name is None && o.contact_email is None && o.contact_url is None
    &&& o.license_name is None && o.license_url is None
    &&& config.api_servers@.len() == 0 ==> server_views(o.servers@) == seq![(server_url_of(config.bind_address@), "API Server"@)]
    &&& config.api_servers@.len() > 0 ==> server_views(o.servers@).len() == config.api_servers@.len()
        && forall|i: int| 0 <= i < config.api_servers@.len() ==> #[trigger] server_views(o.servers@)[i]
            == (config.api_servers@[i].url@, config.api_servers@[i].description@)
}

/// The document settings of an application: none when the description is
/// turned off; otherwise its name, version and description, and its server
/// entries, or when it has none a single `API Server` entry at the URL of the
/// bind address.
pub fn openapi_for_app(config: &AppConfig) -> (r: Option<OpenApiConfig>)
    ensures
        r is Some <==> config.enable_docs,
        r matches Some(o) ==> app_document(*config, o),
{
    if !config.enable_docs {
        return None;
    }
    let mut o = OpenApiConfig::new(config.name.as_str(), config.version.as_str()).description(config.description.as_str());
    if config.api_servers.len() == 0 {
        let url = server_url_for_bind(config.bind_address.as_str());
        o = o.server(url.as_str(), "API Server");
        proof {
            assert(server_views(o.servers@) =~= seq![(server_url_of(config.bind_address@), "API Server"@)]);
        }
    } else {
        let mut i: usize = 0;
        while i < config.api_servers.len()
            invariant
                i <= config.api_servers@.len(),
                o.title@ == config.name@,
                o.version@ == config.version@,
                opt_view(o.description) == Some(config.description@),
                o.terms_of_service is None,
                o.contact_name is None && o.contact_email is None && o.contact_url is None,
                o.license_name is None && o.license_url is None,
                server_views(o.servers@).len() == i,
                forall|j: int| 0 <= j < i ==> #[trigger] server_views(o.servers@)[j]
                    == (config.api_servers@[j].url@, config.api_servers@[j].description@),
            decreases config.api_servers@.len() - i,
        {
            o = o.server(config.api_servers[i].url.as_str(), config.api_servers[i].description.as_str());
            i = i + 1;
        }
    }
    Some(o)
}

/// Where the document and its viewer are served.
#[derive(Debug, Clone)]
pub struct DocsRoutes {
    /// The path of the documentation page.
    pub docs_path: String,
    /// The path of the JSON document.
    pub openapi_json_path: String,
    /// The document's address as the page fetches it, relative to the page.
    pub ui_spec_path: String,
}

/// The document's address relative to the page: `./` and the path without
/// its leading `/`.
pub open spec fn relative_spec_path(p: Seq<char>) -> Seq<char> {
    if p.len() > 0 && p[0] == '/' {
        "./"@ + p.drop_first()
    } else {
        "./"@ + p
    }
}

/// Where the document and its viewer are served: the paths of the
/// application settings, or `/docs` and `/openapi.json` without them.
pub fn docs_routes(config: Option<&AppConfig>) -> (r: DocsRoutes)
    ensures
        r.docs_path@ == match config {
            Some(c) => c.docs_path@,
            None => "/docs"@,
        },
        r.openapi_json_path@ == match config {
            Some(c) => c.openapi_json_path@,
            None => "/openapi.json"@,
        },
        r.ui_spec_path@ == relative_spec_path(r.openapi_json_path@),
{
    let (docs, json) = match config {
        Some(c) => (owned(c.docs_path.as_str()), owned(c.openapi_json_path.as_str())),
        None => (owned("/docs"), owned("/openapi.json")),
    };
    let ui = if starts_with(json.as_str(), "/") {
        proof {
            reveal_strlit("/");
            assert(json@.subrange(0, 1)[0] == json@[0]);
            assert(json@.subrange(1, json@.len() as int) =~= json@.drop_first());
        }
        let rest = suffix_from(json.as_str(), 1);
        join2("./", rest.as_str())
    } else {
        proof {
            reveal_strlit("/");
            if json@.len() > 0 && json@[0] == '/' {
                assert(json@.subrange(0, 1) =~= "/"@);
            }
        }
        join2("./", json.as_str())
    };
    DocsRoutes { docs_path: docs, openapi_json_path: json, ui_spec_path: ui }
}

/// Whether requests are traced: only when logging settings ask for it.
pub fn traces_requests(logging: Option<&Logging>) -> (r: bool)
    ensures
        r == (logging matches Some(l) && l.log_requests),
{
    match logging {
        Some(l) => l.log_requests,
        None => false,
    }
}

/// The settings a server is built from, apart from its routes.
#[derive(Debug, Clone)]
pub struct ServerSettings {
    pub address: String,
    pub openapi: Option<OpenApiConfig>,
    pub config: Option<AppConfig>,
    pub logging: Option<Logging>,
}

impl ServerSettings {
    /// Bound to `127.0.0.1:3000`, with no document, application or logging
    /// settings.
    pub fn new() -> (r: Self)
        ensures
            r.address@ == "127.0.0.1:3000"@,
            r.openapi is None,
            r.config is None,
            r.logging is None,
    {
        ServerSettings { address: owned("127.0.0.1:3000"), openapi: None, config: None, logging: None }
    }

    /// Takes the application settings: their bind address, and the document
    /// settings they give, when they turn the document on.
    pub fn with_config(self, config: AppConfig) -> (r: Self)
        ensures
            r.address@ == config.bind_address@,
            config.enable_docs ==> (r.openapi matches Some(o) && app_document(config, o)),
            !config.enable_docs ==> r.openapi == self.openapi,
            r.config == Some(config),
            r.logging == self.logging,
    {
        let mut this = self;
        this.address = owned(config.bind_address.as_str());
        match openapi_for_app(&config) {
            Some(o) => {
                this.openapi = Some(o);
            },
            None => {},
        }
        this.config = Some(config);
        this
    }

    /// Takes document settings.
    pub fn with_openapi(self, openapi: OpenApiConfig) -> (r: Self)
        ensures
            r.address == self.address,
            r.openapi == Some(openapi),
            r.config == self.config,
            r.logging == self.logging,
    {
        let mut this = self;
        this.openapi = Some(openapi);
        this
    }

    /// Takes logging settings.
    pub fn with_logging(self, logging: Logging) -> (r: Self)
        ensures
            r.address == self.address,
            r.openapi == self.openapi,
            r.config == self.config,
            r.logging == Some(logging),
    {
        let mut this = self;
        this.logging = Some(logging);
        this
    }

    /// Sets the bind address.
    pub fn bind(self, address: &str) -> (r: Self)
        ensures
            r.address@ == address@,
            r.openapi == self.openapi,
            r.config == self.config,
            r.logging == self.logging,
    {
        let mut this = self;
        this.address = owned(address);
        this
    }
}

/// The severity a response is logged with: errors for 5xx, warnings for
/// 4xx, debug for the rest.
pub open spec fn severity_of(status: u16) -> LogLevel {
    if 500 <= status <= 599 {
        LogLevel::Error
    } else if 400 <= status <= 499 {
        LogLevel::Warn
    } else {
        LogLevel::Debug
    }
}

/// The severity a response is logged with.
pub fn response_log_level(status: u16) -> (r: LogLevel)
    ensures
        r == severity_of(status),
{
    if 500 <= status && status <= 599 {
        LogLevel::Error
    } else if 400 <= status && status <= 499 {
        LogLevel::Warn
    } else {
        LogLevel::Debug
    }
}

/// The decimal digits of a number, without leading zeros.
pub open spec fn decimal(n: nat) -> Seq<char>
    decreases n,
{
    if n < 10 {
        seq![crate::response::hex_digits()[n as int]]
    } else {
        decimal(n / 10).push(crate::response::hex_digits()[(n % 10) as int])
    }
}

fn push_decimal(out: &mut String, n: u64)
    ensures
        final(out)@ == old(out)@ + decimal(n as nat),
    decreases n,
{
    let digits: Vec<char> = vec!['0', '1', '2', '3', '4', '5', '6', '7', '8', '9'];
    proof {
        assert(forall|i: int| 0 <= i < 10 ==> digits@[i] == #[trigger] crate::response::hex_digits()[i]);
    }
    if n >= 10 {
        push_decimal(out, n / 10);
    }
    push_char(out, digits[(n % 10) as usize]);
    proof {
        if n < 10 {
            assert(n % 10 == n);
        }
    }
}

/// How long a request took, in the largest of milliseconds and microseconds
/// that gives a non-zero count: `12ms`, `850µs`.
pub open spec fn latency_of(micros: u64) -> Seq<char> {
    if micros >= 1000 {
        decimal((micros / 1000) as nat) + "ms"@
    } else {
        decimal(micros as nat) + "µs"@
    }
}

/// How long a request took, as logged.
pub fn latency_text(micros: u64) -> (r: String)
    ensures
        r@ == latency_of(micros),
{
    let mut out = String::new();
    if micros >= 1000 {
        push_decimal(&mut out, micros / 1000);
        append(&mut out, "ms");
    } else {
        push_decimal(&mut out, micros);
        append(&mut out, "µs");
    }
    proof {
        assert(out@ =~= latency_of(micros));
    }
    out
}

/// The routes registered so far, each path and branch once.
#[derive(Debug)]
pub struct RouteRegistry {
    entries: Vec<(&'static str, MethodBranch)>,
}

impl View for RouteRegistry {
    type V = Set<(Seq<char>, MethodBranch)>;

    closed spec fn view(&self) -> Set<(Seq<char>, MethodBranch)> {
        Set::new(|e: (Seq<char>, MethodBranch)| exists|i: int| 0 <= i < self.entries@.len() && self.entries@[i].0@ == e.0 && self.entries@[i].1 == e.1)
    }
}

impl RouteRegistry {
    /// No routes.
    pub fn new() -> (r: Self)
        ensures
            r@ == Set::<(Seq<char>, MethodBranch)>::empty(),
    {
        let r = RouteRegistry { entries: Vec::new() };
        assert(r@ =~= Set::<(Seq<char>, MethodBranch)>::empty());
        r
    }

    /// Records the route of `path` on the branch of `method`, and says
    /// whether it replaces an earlier registration of the same path and
    /// branch (the later handler is the one that serves it).
    pub fn record(&mut self, path: &'static str, method: HttpMethod) -> (replaced: bool)
        ensures
            replaced == old(self)@.contains((path@, branch_of(method))),
            final(self)@ == old(self)@.insert((path@, branch_of(method))),
    {
        let branch = MethodBranch::for_method(method);
        let ghost e = (path@, branch);
        let mut i: usize = 0;
        while i < self.entries.len()
            invariant
                e == (path@, branch),
                branch == branch_of(method),
                i <= self.entries@.len(),
                forall|j: int| 0 <= j < i ==> !(self.entries@[j].0@ == path@ && self.entries@[j].1 == branch),
            decreases self.entries@.len() - i,
        {
            let same_path = str_eq(self.entries[i].0, path);
            let same_branch = self.entries[i].1 == branch;
            if same_path && same_branch {
                proof {
                    assert(self.entries@[i as int].0@ == e.0 && self.entries@[i as int].1 == e.1);
                    assert(self@.contains(e));
                    assert(self@.insert(e) =~= self@);
                }
                return true;
            }
            i = i + 1;
        }
        let ghost before = self@;
        proof {
            assert(!before.contains(e));
        }
        self.entries.push((path, branch));
        proof {
            assert forall|x: (Seq<char>, MethodBranch)| #[trigger] self@.contains(x) <==> before.insert(e).contains(x) by {
                if before.contains(x) {
                    let j = choose|j: int| 0 <= j < old(self).entries@.len() && old(self).entries@[j].0@ == x.0 && old(self).entries@[j].1 == x.1;
                    assert(self.entries@[j] == old(self).entries@[j]);
                }
                if x == e {
                    assert(self.entries@[self.entries@.len() - 1] == (path, branch));
                }
                if self@.contains(x) && x != e {
                    let j = choose|j: int| 0 <= j < self.entries@.len() && self.entries@[j].0@ == x.0 && self.entries@[j].1 == x.1;
                    assert(j < old(self).entries@.len());
                    assert(old(self).entries@[j] == self.entries@[j]);
                }
            }
            assert(self@ =~= before.insert(e));
        }
        false
    }
}

} // verus!
