//! Route and documentation descriptions of endpoints.
use vstd::prelude::*;

verus! {

/// The HTTP methods that a route can be declared with.
#[derive(Debug, Clone, Copy, PartialEq, Eq, Structural)]
pub enum HttpMethod {
    GET,
    POST,
    PUT,
    PATCH,
    DELETE,
    OPTIONS,
    HEAD,
}

impl HttpMethod {
    /// The method's name in lower case, as routers spell it.
    pub open spec fn name(self) -> Seq<char> {
        match self {
            HttpMethod::GET => "get"@,
            HttpMethod::POST => "post"@,
            HttpMethod::PUT => "put"@,
            HttpMethod::PATCH => "patch"@,
            HttpMethod::DELETE => "delete"@,
            HttpMethod::OPTIONS => "options"@,
            HttpMethod::HEAD => "head"@,
        }
    }

    /// The method's name in lower case.
    pub fn as_str(&self) -> (r: &'static str)
        ensures
            r@ == self.name(),
    {
        match self {
            HttpMethod::GET => "get",
            HttpMethod::POST => "post",
            HttpMethod::PUT => "put",
            HttpMethod::PATCH => "patch",
            HttpMethod::DELETE => "delete",
            HttpMethod::OPTIONS => "options",
            HttpMethod::HEAD => "head",
        }
    }
}

/// A query parameter of a route.
#[derive(Debug, Clone, Copy)]
pub struct QueryParam {
    pub name: &'static str,
    pub description: Option<&'static str>,
    pub required: bool,
}

/// A path parameter of a route.
#[derive(Debug, Clone, Copy)]
pub struct PathParam {
    pub name: &'static str,
    pub description: Option<&'static str>,
    pub required: bool,
}

/// Which parameter a `ParamBuilder` configures.
#[derive(Debug, Clone, Copy)]
pub enum ParamSlot {
    Query(usize),
    Path(usize),
}

/// Configures the parameter that was just added to a route.
#[derive(Debug)]
pub struct ParamBuilder<'a> {
    pub route: &'a mut Route,
    pub slot: ParamSlot,
}


/// The query parameters after the builder's `required` or `desc`: the
/// slot's entry gets `required` set, or the description.
pub open spec fn configured_query(qs: Seq<QueryParam>, slot: ParamSlot, required: bool, desc: Option<&'static str>) -> Seq<QueryParam> {
    match slot {
        ParamSlot::Query(i) => if i < qs.len() {
            qs.update(i as int, QueryParam {
                name: qs[i as int].name,
                description: if desc is Some { desc } else { qs[i as int].description },
                required: required || qs[i as int].required,
            })
        } else {
            qs
        },
        ParamSlot::Path(_) => qs,
    }
}

/// The path parameters after the builder's `required` or `desc`.
pub open spec fn configured_path(ps: Seq<PathParam>, slot: ParamSlot, required: bool, desc: Option<&'static str>) -> Seq<PathParam> {
    match slot {
        ParamSlot::Path(i) => if i < ps.len() {
            ps.update(i as int, PathParam {
                name: ps[i as int].name,
                description: if desc is Some { desc } else { ps[i as int].description },
                required: required || ps[i as int].required,
            })
        } else {
            ps
        },
        ParamSlot::Query(_) => ps,
    }
}

impl<'a> ParamBuilder<'a> {
    fn configure(self, required: bool, desc: Option<&'static str>) -> (r: &'a mut Route)
        ensures
            r.path == old(self.route).path,
            r.method == old(self.route).method,
            r.query_params@ == configured_query(old(self.route).query_params@, self.slot, required, desc),
            r.path_params@ == configured_path(old(self.route).path_params@, self.slot, required, desc),
            *final(self.route) == *final(r),
    {
        let route = self.route;
        match self.slot {
            ParamSlot::Query(i) => {
                if i < route.query_params.len() {
                    let old_p = route.query_params[i];
                    let p = QueryParam {
                        name: old_p.name,
                        description: if desc.is_some() { desc } else { old_p.description },
                        required: required || old_p.required,
                    };
                    route.query_params.set(i, p);
                }
            },
            ParamSlot::Path(i) => {
                if i < route.path_params.len() {
                    let old_p = route.path_params[i];
                    let p = PathParam {
                        name: old_p.name,
                        description: if desc.is_some() { desc } else { old_p.description },
                        required: required || old_p.required,
                    };
                    route.path_params.set(i, p);
                }
            },
        }
        route
    }

    /// Marks the parameter as required and hands the route back.
    pub fn required(self) -> (r: &'a mut Route)
        ensures
            r.path == old(self.route).path,
            r.method == old(self.route).method,
            r.query_params@ == configured_query(old(self.route).query_params@, self.slot, true, None),
            r.path_params@ == configured_path(old(self.route).path_params@, self.slot, true, None),
            *final(self.route) == *final(r),
    {
        self.configure(true, None)
    }

    /// Gives the parameter a description and hands the route back.
    pub fn desc(self, description: &'static str) -> (r: &'a mut Route)
        ensures
            r.path == old(self.route).path,
            r.method == old(self.route).method,
            r.query_params@ == configured_query(old(self.route).query_params@, self.slot, false, Some(description)),
            r.path_params@ == configured_path(old(self.route).path_params@, self.slot, false, Some(description)),
            *final(self.route) == *final(r),
    {
        self.configure(false, Some(description))
    }
}

/// The wire shape of one route: method, path template and parameters.
#[derive(Debug, Clone)]
pub struct Route {
    pub path: &'static str,
    pub method: HttpMethod,
    pub query_params: Vec<QueryParam>,
    pub path_params: Vec<PathParam>,
}

impl Route {
    /// A route with the given method and path and no parameters.
    pub fn new(method: HttpMethod, path: &'static str) -> (r: Self)
        ensures
            r.method == method,
            r.path == path,
            r.query_params@ == Seq::<QueryParam>::empty(),
            r.path_params@ == Seq::<PathParam>::empty(),
    {
        Route { path, method, query_params: Vec::new(), path_params: Vec::new() }
    }

    /// Adds a query parameter, optional and without description, and returns
    /// a builder to configure it.
    pub fn query(&mut self, name: &'static str) -> (b: ParamBuilder<'_>)
        ensures
            b.slot == ParamSlot::Query(old(self).query_params@.len() as usize),
            b.route.query_params@ == old(self).query_params@.push(
                QueryParam { name, description: None, required: false },
            ),
            b.route.path_params@ == old(self).path_params@,
            b.route.path == old(self).path,
            b.route.method == old(self).method,
            *final(self) == *final(b.route),
    {
        self.query_params.push(QueryParam { name, description: None, required: false });
        let idx = self.query_params.len() - 1;
        ParamBuilder { route: self, slot: ParamSlot::Query(idx) }
    }

    /// A GET route with no parameters.
    pub fn get(path: &'static str) -> (r: Self)
        ensures
            r.method == HttpMethod::GET,
            r.path == path,
            r.query_params@ == Seq::<QueryParam>::empty(),
            r.path_params@ == Seq::<PathParam>::empty(),
    {
        Self::new(HttpMethod::GET, path)
    }

    /// A POST route with no parameters.
    pub fn post(path: &'static str) -> (r: Self)
        ensures
            r.method == HttpMethod::POST,
            r.path == path,
            r.query_params@ == Seq::<QueryParam>::empty(),
            r.path_params@ == Seq::<PathParam>::empty(),
    {
        Self::new(HttpMethod::POST, path)
    }

    /// A PUT route with no parameters.
    pub fn put(path: &'static str) -> (r: Self)
        ensures
            r.method == HttpMethod::PUT,
            r.path == path,
            r.query_params@ == Seq::<QueryParam>::empty(),
            r.path_params@ == Seq::<PathParam>::empty(),
    {
        Self::new(HttpMethod::PUT, path)
    }

    /// A PATCH route with no parameters.
    pub fn patch(path: &'static str) -> (r: Self)
        ensures
            r.method == HttpMethod::PATCH,
            r.path == path,
            r.query_params@ == Seq::<QueryParam>::empty(),
            r.path_params@ == Seq::<PathParam>::empty(),
    {
        Self::new(HttpMethod::PATCH, path)
    }

    /// A DELETE route with no parameters.
    pub fn delete(path: &'static str) -> (r: Self)
        ensures
            r.method == HttpMethod::DELETE,
            r.path == path,
            r.query_params@ == Seq::<QueryParam>::empty(),
            r.path_params@ == Seq::<PathParam>::empty(),
    {
        Self::new(HttpMethod::DELETE, path)
    }

    /// A OPTIONS route with no parameters.
    pub fn options(path: &'static str) -> (r: Self)
        ensures
            r.method == HttpMethod::OPTIONS,
            r.path == path,
            r.query_params@ == Seq::<QueryParam>::empty(),
            r.path_params@ == Seq::<PathParam>::empty(),
    {
        Self::new(HttpMethod::OPTIONS, path)
    }

    /// A HEAD route with no parameters.
    pub fn head(path: &'static str) -> (r: Self)
        ensures
            r.method == HttpMethod::HEAD,
            r.path == path,
            r.query_params@ == Seq::<QueryParam>::empty(),
            r.path_params@ == Seq::<PathParam>::empty(),
    {
        Self::new(HttpMethod::HEAD, path)
    }

    /// Adds a required path parameter with a description.
    pub fn param(self, name: &'static str, description: &'static str) -> (r: Self)
        ensures
            r.path_params@ == self.path_params@.push(
                PathParam { name, description: Some(description), required: true },
            ),
            r.query_params@ == self.query_params@,
            r.path == self.path,
            r.method == self.method,
    {
        let mut this = self;
        this.path_params.push(PathParam { name, description: Some(description), required: true });
        this
    }

    /// Adds a path parameter, optional and without description, and returns
    /// a builder to configure it.
    pub fn path_param(&mut self, name: &'static str) -> (b: ParamBuilder<'_>)
        ensures
            b.slot == ParamSlot::Path(old(self).path_params@.len() as usize),
            b.route.path_params@ == old(self).path_params@.push(
                PathParam { name, description: None, required: false },
            ),
            b.route.query_params@ == old(self).query_params@,
            b.route.path == old(self).path,
            b.route.method == old(self).method,
            *final(self) == *final(b.route),
    {
        self.path_params.push(PathParam { name, description: None, required: false });
        let idx = self.path_params.len() - 1;
        ParamBuilder { route: self, slot: ParamSlot::Path(idx) }
    }
}

/// Where an API key is carried.
#[derive(Debug, Clone, Copy, PartialEq, Eq, Structural)]
pub enum ApiKeyLocation {
    Header,
    Query,
    Cookie,
}

/// An authentication scheme that an endpoint requires.
#[derive(Debug, Clone)]
pub enum SecurityScheme {
    /// A bearer token in the `Authorization` header.
    Bearer,
    /// HTTP Basic authentication.
    Basic,
    /// An API key under the given name.
    ApiKey { name: &'static str, location: ApiKeyLocation },
    /// OAuth2 with the given scopes.
    OAuth2 { scopes: Vec<&'static str> },
}

/// Human-facing documentation of an endpoint.
#[derive(Debug, Clone)]
pub struct Meta {
    pub summary: Option<&'static str>,
    pub description: Option<&'static str>,
    pub tags: Vec<&'static str>,
    pub deprecated: bool,
    pub security: Vec<SecurityScheme>,
}

impl Meta {
    /// No summary, description, tags or security, not deprecated.
    pub fn new() -> (r: Self)
        ensures
            r.summary is None,
            r.description is None,
            r.tags@ == Seq::<&'static str>::empty(),
            !r.deprecated,
            r.security@ == Seq::<SecurityScheme>::empty(),
    {
        Meta { summary: None, description: None, tags: Vec::new(), deprecated: false, security: Vec::new() }
    }

    /// Sets the summary.
    pub fn summary(self, text: &'static str) -> (r: Self)
        ensures
            r.summary == Some(text),
            r.description == self.description,
            r.tags@ == self.tags@,
            r.deprecated == self.deprecated,
            r.security@ == self.security@,
    {
        let mut this = self;
        this.summary = Some(text);
        this
    }

    /// Sets the long description.
    pub fn describe(self, text: &'static str) -> (r: Self)
        ensures
            r.summary == self.summary,
            r.description == Some(text),
            r.tags@ == self.tags@,
            r.deprecated == self.deprecated,
            r.security@ == self.security@,
    {
        let mut this = self;
        this.description = Some(text);
        this
    }

    /// Sets the long description (the same as `describe`).
    pub fn description(self, text: &'static str) -> (r: Self)
        ensures
            r.summary == self.summary,
            r.description == Some(text),
            r.tags@ == self.tags@,
            r.deprecated == self.deprecated,
            r.security@ == self.security@,
    {
        self.describe(text)
    }

    /// Adds a tag at the end; the same tag may be added twice.
    pub fn tag(self, tag: &'static str) -> (r: Self)
        ensures
            r.summary == self.summary,
            r.description == self.description,
            r.tags@ == self.tags@.push(tag),
            r.deprecated == self.deprecated,
            r.security@ == self.security@,
    {
        let mut this = self;
        this.tags.push(tag);
        this
    }

    /// Marks the endpoint as deprecated.
    pub fn deprecated(self) -> (r: Self)
        ensures
            r.summary == self.summary,
            r.description == self.description,
            r.tags@ == self.tags@,
            r.deprecated,
            r.security@ == self.security@,
    {
        let mut this = self;
        this.deprecated = true;
        this
    }

    /// Adds a required authentication scheme at the end.
    pub fn secured(self, scheme: SecurityScheme) -> (r: Self)
        ensures
            r.summary == self.summary,
            r.description == self.description,
            r.tags@ == self.tags@,
            r.deprecated == self.deprecated,
            r.security@ == self.security@.push(scheme),
    {
        let mut this = self;
        this.security.push(scheme);
        this
    }
}

/// An endpoint: the route it answers and the documentation it carries.
pub trait Endpoint {
    /// The route: method, path and parameters.
    fn route(&self) -> Route;

    /// The documentation; none by default.
    fn meta(&self) -> Meta {
        Meta::new()
    }
}

} // verus!
