//! Cross-origin resource sharing settings and the rules they give.
use crate::endpoint::HttpMethod;
use crate::text::{contains_str, owned, string_views};
use vstd::prelude::*;

verus! {

/// The methods allowed by default.
pub open spec fn default_methods() -> Seq<HttpMethod> {
    seq![HttpMethod::GET, HttpMethod::POST, HttpMethod::PUT, HttpMethod::DELETE, HttpMethod::PATCH, HttpMethod::OPTIONS]
}

/// Which values of a CORS header are allowed.
#[derive(Debug, Clone)]
pub enum AccessRule {
    /// Every value.
    Any,
    /// The listed values (entries that are not valid header values are
    /// skipped by the transport).
    Listed(Vec<String>),
}

/// CORS settings.
#[derive(Debug, Clone)]
pub struct Cors {
    /// Allowed origins; `*` among them allows every origin.
    pub allowed_origins: Vec<String>,
    pub allowed_methods: Vec<HttpMethod>,
    /// Allowed request headers; `*` among them allows every header.
    pub allowed_headers: Vec<String>,
    pub allow_credentials: bool,
    /// How long a preflight answer may be cached, in seconds.
    pub max_age: Option<u64>,
}

fn star() -> (r: Vec<String>)
    ensures
        string_views(r@) == seq!["*"@],
{
    let r = vec![owned("*")];
    assert(string_views(r@) =~= seq!["*"@]);
    r
}

fn default_method_list() -> (r: Vec<HttpMethod>)
    ensures
        r@ == default_methods(),
{
    let r = vec![HttpMethod::GET, HttpMethod::POST, HttpMethod::PUT, HttpMethod::DELETE, HttpMethod::PATCH, HttpMethod::OPTIONS];
    assert(r@ =~= default_methods());
    r
}

impl Cors {
    /// No origins, the default methods, every header, no credentials, one
    /// hour of preflight caching.
    pub fn new() -> (r: Self)
        ensures
            r.allowed_origins@ == Seq::<String>::empty(),
            r.allowed_methods@ == default_methods(),
            string_views(r.allowed_headers@) == seq!["*"@],
            !r.allow_credentials,
            r.max_age == Some(3600u64),
    {
        Cors {
            allowed_origins: Vec::new(),
            allowed_methods: default_method_list(),
            allowed_headers: star(),
            allow_credentials: false,
            max_age: Some(3600),
        }
    }

    /// Every origin, the default methods, every header, no credentials.
    pub fn permissive() -> (r: Self)
        ensures
            string_views(r.allowed_origins@) == seq!["*"@],
            r.allowed_methods@ == default_methods(),
            string_views(r.allowed_headers@) == seq!["*"@],
            !r.allow_credentials,
            r.max_age == Some(3600u64),
    {
        Cors {
            allowed_origins: star(),
            allowed_methods: default_method_list(),
            allowed_headers: star(),
            allow_credentials: false,
            max_age: Some(3600),
        }
    }

    /// The given origins, the default methods but `OPTIONS`, the content type
    /// and authorization headers, and credentials.
    pub fn restrictive(origins: Vec<String>) -> (r: Self)
        ensures
            r.allowed_origins@ == origins@,
            r.allowed_methods@ == default_methods().drop_last(),
            string_views(r.allowed_headers@) == seq!["content-type"@, "authorization"@],
            r.allow_credentials,
            r.max_age == Some(3600u64),
    {
        let methods = vec![HttpMethod::GET, HttpMethod::POST, HttpMethod::PUT, HttpMethod::DELETE, HttpMethod::PATCH];
        let headers = vec![owned("content-type"), owned("authorization")];
        assert(methods@ =~= default_methods().drop_last());
        assert(string_views(headers@) =~= seq!["content-type"@, "authorization"@]);
        Cors {
            allowed_origins: origins,
            allowed_methods: methods,
            allowed_headers: headers,
            allow_credentials: true,
            max_age: Some(3600),
        }
    }

    /// Adds an allowed origin at the end.
    pub fn allow_origin(self, origin: &str) -> (r: Self)
        ensures
            string_views(r.allowed_origins@) == string_views(self.allowed_origins@).push(origin@),
            r.allowed_methods@ == self.allowed_methods@,
            r.allowed_headers@ == self.allowed_headers@,
            r.allow_credentials == self.allow_credentials,
            r.max_age == self.max_age,
    {
        let mut this = self;
        this.allowed_origins.push(owned(origin));
        proof {
            assert(string_views(this.allowed_origins@) =~= string_views(self.allowed_origins@).push(origin@));
        }
        this
    }

    /// Allows every origin.
    pub fn allow_all_origins(self) -> (r: Self)
        ensures
            string_views(r.allowed_origins@) == seq!["*"@],
            r.allowed_methods@ == self.allowed_methods@,
            r.allowed_headers@ == self.allowed_headers@,
            r.allow_credentials == self.allow_credentials,
            r.max_age == self.max_age,
    {
        let mut this = self;
        this.allowed_origins = star();
        this
    }

    /// Sets the allowed methods.
    pub fn methods(self, methods: Vec<HttpMethod>) -> (r: Self)
        ensures
            r.allowed_methods@ == methods@,
            r.allowed_origins@ == self.allowed_origins@,
            r.allowed_headers@ == self.allowed_headers@,
            r.allow_credentials == self.allow_credentials,
            r.max_age == self.max_age,
    {
        let mut this = self;
        this.allowed_methods = methods;
        this
    }

    /// Sets the allowed headers.
    pub fn headers(self, headers: Vec<String>) -> (r: Self)
        ensures
            r.allowed_headers@ == headers@,
            r.allowed_origins@ == self.allowed_origins@,
            r.allowed_methods@ == self.allowed_methods@,
            r.allow_credentials == self.allow_credentials,
            r.max_age == self.max_age,
    {
        let mut this = self;
        this.allowed_headers = headers;
        this
    }

    /// Allows every header.
    pub fn allow_all_headers(self) -> (r: Self)
        ensures
            string_views(r.allowed_headers@) == seq!["*"@],
            r.allowed_origins@ == self.allowed_origins@,
            r.allowed_methods@ == self.allowed_methods@,
            r.allow_credentials == self.allow_credentials,
            r.max_age == self.max_age,
    {
        let mut this = self;
        this.allowed_headers = star();
        this
    }

    /// Allows or forbids credentials.
    pub fn allow_credentials(self, allow: bool) -> (r: Self)
        ensures
            r.allow_credentials == allow,
            r.allowed_origins@ == self.allowed_origins@,
            r.allowed_methods@ == self.allowed_methods@,
            r.allowed_headers@ == self.allowed_headers@,
            r.max_age == self.max_age,
    {
        let mut this = self;
        this.allow_credentials = allow;
        this
    }

    /// Sets how long a preflight answer may be cached.
    pub fn max_age(self, seconds: u64) -> (r: Self)
        ensures
            r.max_age == Some(seconds),
            r.allowed_origins@ == self.allowed_origins@,
            r.allowed_methods@ == self.allowed_methods@,
            r.allowed_headers@ == self.allowed_headers@,
            r.allow_credentials == self.allow_credentials,
    {
        let mut this = self;
        this.max_age = Some(seconds);
        this
    }

    /// The origins rule: every origin when `*` is allowed, the listed ones
    /// otherwise.
    pub fn origin_rule(&self) -> (r: AccessRule)
        ensures
            string_views(self.allowed_origins@).contains("*"@) <==> r is Any,
            r matches AccessRule::Listed(l) ==> string_views(l@) == string_views(self.allowed_origins@),
    {
        if contains_str(&self.allowed_origins, "*") {
            AccessRule::Any
        } else {
            AccessRule::Listed(crate::text::copy_strings(&self.allowed_origins))
        }
    }

    /// The headers rule: every header when `*` is allowed, the listed ones
    /// otherwise.
    pub fn header_rule(&self) -> (r: AccessRule)
        ensures
            string_views(self.allowed_headers@).contains("*"@) <==> r is Any,
            r matches AccessRule::Listed(l) ==> string_views(l@) == string_views(self.allowed_headers@),
    {
        if contains_str(&self.allowed_headers, "*") {
            AccessRule::Any
        } else {
            AccessRule::Listed(crate::text::copy_strings(&self.allowed_headers))
        }
    }
}

impl Default for Cors {
    fn default() -> (r: Self)
        ensures
            r.allowed_origins@ == Seq::<String>::empty(),
            r.allowed_methods@ == default_methods(),
            string_views(r.allowed_headers@) == seq!["*"@],
            !r.allow_credentials,
            r.max_age == Some(3600u64),
    {
        Cors::new()
    }
}

} // verus!
