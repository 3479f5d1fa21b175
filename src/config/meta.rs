//! Extended application settings: environment, CORS, logging, environment
//! variables and connection limits.
use crate::params::{table_map, ParamTable};
use crate::text::{contains_str, copy_strings, owned, string_views};
use vstd::prelude::*;

verus! {

/// The least severity of messages that are shown.
#[derive(Debug, Clone, Copy, PartialEq, Eq, Structural)]
pub enum LogLevel {
    Trace,
    Debug,
    Info,
    Warn,
    Error,
}

impl LogLevel {
    /// The level's name as a log filter spells it.
    pub open spec fn filter_name(self) -> Seq<char> {
        match self {
            LogLevel::Trace => "trace"@,
            LogLevel::Debug => "debug"@,
            LogLevel::Info => "info"@,
            LogLevel::Warn => "warn"@,
            LogLevel::Error => "error"@,
        }
    }

    /// The level's name as a log filter spells it.
    pub fn as_filter(&self) -> (r: &'static str)
        ensures
            r@ == self.filter_name(),
    {
        match self {
            LogLevel::Trace => "trace",
            LogLevel::Debug => "debug",
            LogLevel::Info => "info",
            LogLevel::Warn => "warn",
            LogLevel::Error => "error",
        }
    }
}

impl Default for LogLevel {
    fn default() -> (r: Self)
        ensures
            r == LogLevel::Info,
    {
        LogLevel::Info
    }
}

/// How log lines are written.
#[derive(Debug, Clone, Copy, PartialEq, Eq, Structural)]
pub enum LogFormat {
    /// Compact lines for people (development).
    Pretty,
    /// One JSON object per line, for log collectors (production).
    Json,
}

/// Logging settings, with a switch for the whole of logging.
#[derive(Debug, Clone, Copy, PartialEq, Eq, Structural)]
pub struct LoggingConfig {
    pub enabled: bool,
    pub level: LogLevel,
    pub log_requests: bool,
    pub log_responses: bool,
    pub format: LogFormat,
}

impl Default for LoggingConfig {
    fn default() -> (r: Self)
        ensures
            r == (LoggingConfig { enabled: true, level: LogLevel::Info, log_requests: true, log_responses: false, format: LogFormat::Pretty }),
    {
        LoggingConfig { enabled: true, level: LogLevel::Info, log_requests: true, log_responses: false, format: LogFormat::Pretty }
    }
}

impl LoggingConfig {
    /// Debug level, pretty lines, requests and responses logged.
    pub fn development() -> (r: Self)
        ensures
            r == (LoggingConfig { enabled: true, level: LogLevel::Debug, log_requests: true, log_responses: true, format: LogFormat::Pretty }),
    {
        LoggingConfig { enabled: true, level: LogLevel::Debug, log_requests: true, log_responses: true, format: LogFormat::Pretty }
    }

    /// Info level, JSON lines, requests logged but not responses.
    pub fn production() -> (r: Self)
        ensures
            r == (LoggingConfig { enabled: true, level: LogLevel::Info, log_requests: true, log_responses: false, format: LogFormat::Json }),
    {
        LoggingConfig { enabled: true, level: LogLevel::Info, log_requests: true, log_responses: false, format: LogFormat::Json }
    }

    /// No logging at all.
    pub fn disabled() -> (r: Self)
        ensures
            r == (LoggingConfig { enabled: false, level: LogLevel::Info, log_requests: false, log_responses: false, format: LogFormat::Pretty }),
    {
        LoggingConfig { enabled: false, level: LogLevel::Info, log_requests: false, log_responses: false, format: LogFormat::Pretty }
    }

    /// Sets the level.
    pub fn level(self, level: LogLevel) -> (r: Self)
        ensures
            r.level == level,
            r.enabled == self.enabled,
            r.log_requests == self.log_requests,
            r.log_responses == self.log_responses,
            r.format == self.format,
    {
        let mut this = self;
        this.level = level;
        this
    }

    /// Turns request logging on or off.
    pub fn log_requests(self, enabled: bool) -> (r: Self)
        ensures
            r.log_requests == enabled,
            r.enabled == self.enabled,
            r.level == self.level,
            r.log_responses == self.log_responses,
            r.format == self.format,
    {
        let mut this = self;
        this.log_requests = enabled;
        this
    }

    /// Turns response logging on or off.
    pub fn log_responses(self, enabled: bool) -> (r: Self)
        ensures
            r.log_responses == enabled,
            r.enabled == self.enabled,
            r.level == self.level,
            r.log_requests == self.log_requests,
            r.format == self.format,
    {
        let mut this = self;
        this.log_responses = enabled;
        this
    }

    /// Sets the format.
    pub fn format(self, format: LogFormat) -> (r: Self)
        ensures
            r.format == format,
            r.enabled == self.enabled,
            r.level == self.level,
            r.log_requests == self.log_requests,
            r.log_responses == self.log_responses,
    {
        let mut this = self;
        this.format = format;
        this
    }

    /// Turns all logging on or off.
    pub fn enabled(self, enabled: bool) -> (r: Self)
        ensures
            r.enabled == enabled,
            r.level == self.level,
            r.log_requests == self.log_requests,
            r.log_responses == self.log_responses,
            r.format == self.format,
    {
        let mut this = self;
        this.enabled = enabled;
        this
    }
}

/// The environment the application runs in.
#[derive(Debug, Clone, Copy, PartialEq, Eq, Structural)]
pub enum Environment {
    Development,
    Staging,
    Production,
}

impl Default for Environment {
    fn default() -> (r: Self)
        ensures
            r == Environment::Development,
    {
        Environment::Development
    }
}

/// The methods that CORS allows by default.
pub open spec fn all_methods() -> Seq<Seq<char>> {
    seq!["GET"@, "POST"@, "PUT"@, "DELETE"@, "PATCH"@, "OPTIONS"@]
}

/// The methods that the production CORS settings allow.
pub open spec fn production_methods() -> Seq<Seq<char>> {
    seq!["GET"@, "POST"@, "PUT"@, "DELETE"@, "PATCH"@]
}

/// Cross-origin resource sharing settings.
#[derive(Debug, Clone)]
pub struct CorsConfig {
    /// Allowed origins; `*` among them allows every origin.
    pub allowed_origins: Vec<String>,
    pub allowed_methods: Vec<String>,
    pub allowed_headers: Vec<String>,
    pub allow_credentials: bool,
    /// How long a preflight answer may be cached, in seconds.
    pub max_age: Option<u64>,
}

fn method_names() -> (r: Vec<String>)
    ensures
        string_views(r@) == all_methods(),
{
    let r = vec![owned("GET"), owned("POST"), owned("PUT"), owned("DELETE"), owned("PATCH"), owned("OPTIONS")];
    assert(string_views(r@) =~= all_methods());
    r
}

impl Default for CorsConfig {
    fn default() -> (r: Self)
        ensures
            r.allowed_origins@ == Seq::<String>::empty(),
            string_views(r.allowed_methods@) == all_methods(),
            string_views(r.allowed_headers@) == seq!["*"@],
            !r.allow_credentials,
            r.max_age == Some(3600u64),
    {
        let headers = vec![owned("*")];
        assert(string_views(headers@) =~= seq!["*"@]);
        CorsConfig {
            allowed_origins: Vec::new(),
            allowed_methods: method_names(),
            allowed_headers: headers,
            allow_credentials: false,
            max_age: Some(3600),
        }
    }
}

impl CorsConfig {
    /// Every origin, every default method and header, no credentials.
    pub fn development() -> (r: Self)
        ensures
            string_views(r.allowed_origins@) == seq!["*"@],
            string_views(r.allowed_methods@) == all_methods(),
            string_views(r.allowed_headers@) == seq!["*"@],
            !r.allow_credentials,
            r.max_age == Some(3600u64),
    {
        let origins = vec![owned("*")];
        let headers = vec![owned("*")];
        assert(string_views(origins@) =~= seq!["*"@]);
        assert(string_views(headers@) =~= seq!["*"@]);
        CorsConfig {
            allowed_origins: origins,
            allowed_methods: method_names(),
            allowed_headers: headers,
            allow_credentials: false,
            max_age: Some(3600),
        }
    }

    /// The given origins, the usual methods but `OPTIONS`, the content type
    /// and authorization headers, and credentials.
    pub fn production(origins: Vec<String>) -> (r: Self)
        ensures
            r.allowed_origins@ == origins@,
            string_views(r.allowed_methods@) == production_methods(),
            string_views(r.allowed_headers@) == seq!["content-type"@, "authorization"@],
            r.allow_credentials,
            r.max_age == Some(3600u64),
    {
        let methods = vec![owned("GET"), owned("POST"), owned("PUT"), owned("DELETE"), owned("PATCH")];
        let headers = vec![owned("content-type"), owned("authorization")];
        assert(string_views(methods@) =~= production_methods());
        assert(string_views(headers@) =~= seq!["content-type"@, "authorization"@]);
        CorsConfig {
            allowed_origins: origins,
            allowed_methods: methods,
            allowed_headers: headers,
            allow_credentials: true,
            max_age: Some(3600),
        }
    }

    /// Whether `*` is among the allowed origins.
    pub fn allows_all_origins(&self) -> (r: bool)
        ensures
            r == string_views(self.allowed_origins@).contains("*"@),
    {
        contains_str(&self.allowed_origins, "*")
    }
}

/// Environment variables: names and values, each name once.
#[derive(Debug)]
pub struct EnvVars {
    table: ParamTable,
}

impl View for EnvVars {
    type V = Map<Seq<char>, Seq<char>>;

    closed spec fn view(&self) -> Map<Seq<char>, Seq<char>> {
        self.table@
    }
}

impl EnvVars {
    #[verifier::type_invariant]
    spec fn inv(&self) -> bool {
        self.table.wf()
    }

    /// No variables.
    pub fn new() -> (r: Self)
        ensures
            r@ == Map::<Seq<char>, Seq<char>>::empty(),
    {
        EnvVars { table: ParamTable::empty() }
    }

    /// The variables with `key` set to `value`; a new value replaces an old
    /// one.
    pub fn with_var(self, key: String, value: String) -> (r: Self)
        ensures
            r@ == self@.insert(key@, value@),
    {
        proof {
            use_type_invariant(&self);
        }
        let EnvVars { table } = self;
        let mut t = table;
        t.insert(key, value);
        EnvVars { table: t }
    }

    /// The value of a variable.
    pub fn get(&self, key: &str) -> (r: Option<&str>)
        ensures
            r is Some <==> self@.contains_key(key@),
            r matches Some(v) ==> v@ == self@[key@],
    {
        proof {
            use_type_invariant(self);
        }
        self.table.get(key)
    }
}

/// A server entry of the API description.
#[derive(Debug, Clone)]
pub struct ApiServer {
    pub url: String,
    pub description: String,
}

/// Extended application settings.
#[derive(Debug)]
pub struct AppConfig {
    pub name: String,
    pub description: String,
    pub version: String,
    pub bind_address: String,
    pub environment: Environment,
    pub cors: CorsConfig,
    pub logging: LoggingConfig,
    pub env_vars: EnvVars,
    pub enable_docs: bool,
    pub api_servers: Vec<ApiServer>,
    pub enable_compression: bool,
    /// At most this many connections at once; no limit when absent.
    pub max_connections: Option<usize>,
    /// TCP keep-alive timeout in seconds; off when absent.
    pub keep_alive_timeout: Option<u64>,
    /// Connection timeout in seconds.
    pub connection_timeout: u64,
}

fn default_bind_address() -> (r: String)
    ensures
        r@ == "127.0.0.1:3000"@,
{
    owned("127.0.0.1:3000")
}

fn default_true() -> (r: bool)
    ensures
        r,
{
    true
}

fn default_connection_timeout() -> (r: u64)
    ensures
        r == 30,
{
    30
}

impl AppConfig {
    /// The settings that `default` and `new` start from, apart from the name
    /// and version.
    pub open spec fn has_defaults(&self) -> bool {
        &&& self.description@ == "API built with Uncovr framework"@
        &&& self.bind_address@ == "127.0.0.1:3000"@
        &&& self.environment == Environment::Development
        &&& string_views(self.cors.allowed_origins@) == seq!["*"@]
        &&& string_views(self.cors.allowed_methods@) == all_methods()
        &&& string_views(self.cors.allowed_headers@) == seq!["*"@]
        &&& !self.cors.allow_credentials
        &&& self.cors.max_age == Some(3600u64)
        &&& self.logging == LoggingConfig { enabled: true, level: LogLevel::Info, log_requests: true, log_responses: false, format: LogFormat::Pretty }
        &&& self.env_vars@ == Map::<Seq<char>, Seq<char>>::empty()
        &&& self.enable_docs
        &&& self.api_servers@ == Seq::<ApiServer>::empty()
        &&& self.enable_compression
        &&& self.max_connections is None
        &&& self.keep_alive_timeout == Some(60u64)
        &&& self.connection_timeout == 30
    }
}

impl Default for AppConfig {
    fn default() -> (r: Self)
        ensures
            r.name@ == "Uncovr API"@,
            r.version@ == "1.0.0"@,
            r.has_defaults(),
    {
        AppConfig {
            name: owned("Uncovr API"),
            description: owned("API built with Uncovr framework"),
            version: owned("1.0.0"),
            bind_address: default_bind_address(),
            environment: Environment::Development,
            cors: CorsConfig::development(),
            logging: LoggingConfig::default(),
            env_vars: EnvVars::new(),
            enable_docs: default_true(),
            api_servers: Vec::new(),
            enable_compression: default_true(),
            max_connections: None,
            keep_alive_timeout: Some(60),
            connection_timeout: default_connection_timeout(),
        }
    }
}

impl AppConfig {
    /// The default settings with the given name and version.
    pub fn new(name: &str, version: &str) -> (r: Self)
        ensures
            r.name@ == name@,
            r.version@ == version@,
            r.has_defaults(),
    {
        let mut c = AppConfig::default();
        c.name = owned(name);
        c.version = owned(version);
        c
    }

    /// Sets the description.
    pub fn description(self, description: &str) -> (r: Self)
        ensures
            r.description@ == description@,
            r.name@ == self.name@,
            r.version@ == self.version@,
            r.bind_address@ == self.bind_address@,
            r.environment == self.environment,
            r.cors == self.cors,
            r.logging == self.logging,
            r.env_vars == self.env_vars,
            r.enable_docs == self.enable_docs,
            r.api_servers@ == self.api_servers@,
            r.enable_compression == self.enable_compression,
            r.max_connections == self.max_connections,
            r.keep_alive_timeout == self.keep_alive_timeout,
            r.connection_timeout == self.connection_timeout,
    {
        let mut this = self;
        this.description = owned(description);
        this
    }

    /// Sets the bind address; the server list is left as it is.
    pub fn bind(self, address: &str) -> (r: Self)
        ensures
            r.bind_address@ == address@,
            r.name@ == self.name@,
            r.description@ == self.description@,
            r.version@ == self.version@,
            r.environment == self.environment,
            r.cors == self.cors,
            r.logging == self.logging,
            r.env_vars == self.env_vars,
            r.enable_docs == self.enable_docs,
            r.api_servers@ == self.api_servers@,
            r.enable_compression == self.enable_compression,
            r.max_connections == self.max_connections,
            r.keep_alive_timeout == self.keep_alive_timeout,
            r.connection_timeout == self.connection_timeout,
    {
        let mut this = self;
        this.bind_address = owned(address);
        this
    }

    /// Sets the CORS settings.
    pub fn cors(self, cors: CorsConfig) -> (r: Self)
        ensures
            r.cors == cors,
            r.name@ == self.name@,
            r.description@ == self.description@,
            r.version@ == self.version@,
            r.bind_address@ == self.bind_address@,
            r.environment == self.environment,
            r.logging == self.logging,
            r.env_vars == self.env_vars,
            r.enable_docs == self.enable_docs,
            r.api_servers@ == self.api_servers@,
            r.enable_compression == self.enable_compression,
            r.max_connections == self.max_connections,
            r.keep_alive_timeout == self.keep_alive_timeout,
            r.connection_timeout == self.connection_timeout,
    {
        let mut this = self;
        this.cors = cors;
        this
    }

    /// Sets the logging settings.
    pub fn logging(self, logging: LoggingConfig) -> (r: Self)
        ensures
            r.logging == logging,
            r.name@ == self.name@,
            r.description@ == self.description@,
            r.version@ == self.version@,
            r.bind_address@ == self.bind_address@,
            r.environment == self.environment,
            r.cors == self.cors,
            r.env_vars == self.env_vars,
            r.enable_docs == self.enable_docs,
            r.api_servers@ == self.api_servers@,
            r.enable_compression == self.enable_compression,
            r.max_connections == self.max_connections,
            r.keep_alive_timeout == self.keep_alive_timeout,
            r.connection_timeout == self.connection_timeout,
    {
        let mut this = self;
        this.logging = logging;
        this
    }

    /// Turns the API description on or off.
    pub fn docs(self, enable: bool) -> (r: Self)
        ensures
            r.enable_docs == enable,
            r.name@ == self.name@,
            r.description@ == self.description@,
            r.version@ == self.version@,
            r.bind_address@ == self.bind_address@,
            r.environment == self.environment,
            r.cors == self.cors,
            r.logging == self.logging,
            r.env_vars == self.env_vars,
            r.api_servers@ == self.api_servers@,
            r.enable_compression == self.enable_compression,
            r.max_connections == self.max_connections,
            r.keep_alive_timeout == self.keep_alive_timeout,
            r.connection_timeout == self.connection_timeout,
    {
        let mut this = self;
        this.enable_docs = enable;
        this
    }

    /// Turns response compression on or off.
    pub fn compression(self, enable: bool) -> (r: Self)
        ensures
            r.enable_compression == enable,
            r.name@ == self.name@,
            r.description@ == self.description@,
            r.version@ == self.version@,
            r.bind_address@ == self.bind_address@,
            r.environment == self.environment,
            r.cors == self.cors,
            r.logging == self.logging,
            r.env_vars == self.env_vars,
            r.enable_docs == self.enable_docs,
            r.api_servers@ == self.api_servers@,
            r.max_connections == self.max_connections,
            r.keep_alive_timeout == self.keep_alive_timeout,
            r.connection_timeout == self.connection_timeout,
    {
        let mut this = self;
        this.enable_compression = enable;
        this
    }

    /// Limits the number of connections at once.
    pub fn max_connections(self, max: usize) -> (r: Self)
        ensures
            r.max_connections == Some(max),
            r.name@ == self.name@,
            r.description@ == self.description@,
            r.version@ == self.version@,
            r.bind_address@ == self.bind_address@,
            r.environment == self.environment,
            r.cors == self.cors,
            r.logging == self.logging,
            r.env_vars == self.env_vars,
            r.enable_docs == self.enable_docs,
            r.api_servers@ == self.api_servers@,
            r.enable_compression == self.enable_compression,
            r.keep_alive_timeout == self.keep_alive_timeout,
            r.connection_timeout == self.connection_timeout,
    {
        let mut this = self;
        this.max_connections = Some(max);
        this
    }

    /// Sets the TCP keep-alive timeout in seconds.
    pub fn keep_alive_timeout(self, timeout: u64) -> (r: Self)
        ensures
            r.keep_alive_timeout == Some(timeout),
            r.name@ == self.name@,
            r.description@ == self.description@,
            r.version@ == self.version@,
            r.bind_address@ == self.bind_address@,
            r.environment == self.environment,
            r.cors == self.cors,
            r.logging == self.logging,
            r.env_vars == self.env_vars,
            r.enable_docs == self.enable_docs,
            r.api_servers@ == self.api_servers@,
            r.enable_compression == self.enable_compression,
            r.max_connections == self.max_connections,
            r.connection_timeout == self.connection_timeout,
    {
        let mut this = self;
        this.keep_alive_timeout = Some(timeout);
        this
    }

    /// Sets the connection timeout in seconds.
    pub fn connection_timeout(self, timeout: u64) -> (r: Self)
        ensures
            r.connection_timeout == timeout,
            r.name@ == self.name@,
            r.description@ == self.description@,
            r.version@ == self.version@,
            r.bind_address@ == self.bind_address@,
            r.environment == self.environment,
            r.cors == self.cors,
            r.logging == self.logging,
            r.env_vars == self.env_vars,
            r.enable_docs == self.enable_docs,
            r.api_servers@ == self.api_servers@,
            r.enable_compression == self.enable_compression,
            r.max_connections == self.max_connections,
            r.keep_alive_timeout == self.keep_alive_timeout,
    {
        let mut this = self;
        this.connection_timeout = timeout;
        this
    }

    /// Sets the environment and the CORS settings that go with it: every
    /// origin in development, the origins configured so far otherwise.
    pub fn environment(self, env: Environment) -> (r: Self)
        ensures
            r.environment == env,
            env == Environment::Development ==> string_views(r.cors.allowed_origins@) == seq!["*"@]
                && string_views(r.cors.allowed_methods@) == all_methods()
                && string_views(r.cors.allowed_headers@) == seq!["*"@]
                && !r.cors.allow_credentials && r.cors.max_age == Some(3600u64),
            env != Environment::Development ==> string_views(r.cors.allowed_origins@) == string_views(self.cors.allowed_origins@)
                && string_views(r.cors.allowed_methods@) == production_methods()
                && string_views(r.cors.allowed_headers@) == seq!["content-type"@, "authorization"@]
                && r.cors.allow_credentials && r.cors.max_age == Some(3600u64),
            r.name@ == self.name@,
            r.description@ == self.description@,
            r.version@ == self.version@,
            r.bind_address@ == self.bind_address@,
            r.logging == self.logging,
            r.env_vars == self.env_vars,
            r.enable_docs == self.enable_docs,
            r.api_servers@ == self.api_servers@,
            r.enable_compression == self.enable_compression,
            r.max_connections == self.max_connections,
            r.keep_alive_timeout == self.keep_alive_timeout,
            r.connection_timeout == self.connection_timeout,
    {
        let mut this = self;
        this.cors = match env {
            Environment::Development => CorsConfig::development(),
            Environment::Staging | Environment::Production => CorsConfig::production(copy_strings(&this.cors.allowed_origins)),
        };
        this.environment = env;
        this
    }

    /// Sets an environment variable; a new value replaces an old one.
    pub fn env(self, key: &str, value: &str) -> (r: Self)
        ensures
            r.env_vars@ == self.env_vars@.insert(key@, value@),
            r.name@ == self.name@,
            r.description@ == self.description@,
            r.version@ == self.version@,
            r.bind_address@ == self.bind_address@,
            r.environment == self.environment,
            r.cors == self.cors,
            r.logging == self.logging,
            r.enable_docs == self.enable_docs,
            r.api_servers@ == self.api_servers@,
            r.enable_compression == self.enable_compression,
            r.max_connections == self.max_connections,
            r.keep_alive_timeout == self.keep_alive_timeout,
            r.connection_timeout == self.connection_timeout,
    {
        let mut this = self;
        this.env_vars = this.env_vars.with_var(owned(key), owned(value));
        this
    }

    /// Adds a server entry at the end of the list.
    pub fn add_server(self, url: &str, description: &str) -> (r: Self)
        ensures
            r.api_servers@.len() == self.api_servers@.len() + 1,
            r.api_servers@.drop_last() == self.api_servers@,
            r.api_servers@.last().url@ == url@,
            r.api_servers@.last().description@ == description@,
            r.name@ == self.name@,
            r.description@ == self.description@,
            r.version@ == self.version@,
            r.bind_address@ == self.bind_address@,
            r.environment == self.environment,
            r.cors == self.cors,
            r.logging == self.logging,
            r.env_vars == self.env_vars,
            r.enable_docs == self.enable_docs,
            r.enable_compression == self.enable_compression,
            r.max_connections == self.max_connections,
            r.keep_alive_timeout == self.keep_alive_timeout,
            r.connection_timeout == self.connection_timeout,
    {
        let mut this = self;
        this.api_servers.push(ApiServer { url: owned(url), description: owned(description) });
        proof {
            assert(this.api_servers@.drop_last() =~= self.api_servers@);
        }
        this
    }

    /// Whether the environment is development.
    pub fn is_development(&self) -> (r: bool)
        ensures
            r == (self.environment == Environment::Development),
    {
        self.environment == Environment::Development
    }

    /// Whether the environment is production.
    pub fn is_production(&self) -> (r: bool)
        ensures
            r == (self.environment == Environment::Production),
    {
        self.environment == Environment::Production
    }
}

} // verus!
