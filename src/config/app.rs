//! Application settings: name, version, bind address and documentation.
use crate::text::owned;
use vstd::prelude::*;

verus! {

/// A server entry of the API description.
#[derive(Debug, Clone)]
pub struct ApiServer {
    pub url: String,
    pub description: String,
}

/// Application settings.
#[derive(Debug, Clone)]
pub struct AppConfig {
    pub name: String,
    pub description: String,
    pub version: String,
    pub bind_address: String,
    pub enable_docs: bool,
    pub docs_path: String,
    pub openapi_json_path: String,
    pub api_servers: Vec<ApiServer>,
}

impl Default for AppConfig {
    fn default() -> (r: Self)
        ensures
            r.name@ == "Uncovr API"@,
            r.description@ == "API built with Uncovr framework"@,
            r.version@ == "1.0.0"@,
            r.bind_address@ == "127.0.0.1:3000"@,
            r.enable_docs,
            r.docs_path@ == "/docs"@,
            r.openapi_json_path@ == "/openapi.json"@,
            r.api_servers@ == Seq::<ApiServer>::empty(),
    {
        AppConfig {
            name: owned("Uncovr API"),
            description: owned("API built with Uncovr framework"),
            version: owned("1.0.0"),
            bind_address: owned("127.0.0.1:3000"),
            enable_docs: true,
            docs_path: owned("/docs"),
            openapi_json_path: owned("/openapi.json"),
            api_servers: Vec::new(),
        }
    }
}

impl AppConfig {
    /// The default settings with the given name and version.
    pub fn new(name: &str, version: &str) -> (r: Self)
        ensures
            r.name@ == name@,
            r.version@ == version@,
            r.description@ == "API built with Uncovr framework"@,
            r.bind_address@ == "127.0.0.1:3000"@,
            r.enable_docs,
            r.docs_path@ == "/docs"@,
            r.openapi_json_path@ == "/openapi.json"@,
            r.api_servers@ == Seq::<ApiServer>::empty(),
    {
        let mut c = AppConfig::default();
        c.name = owned(name);
        c.version = owned(version);
        c
    }

    /// Sets the description.
    pub fn description(self, description: &str) -> (r: Self)
        ensures
            r.description@ == description@,
            r.name@ == self.name@,
            r.version@ == self.version@,
            r.bind_address@ == self.bind_address@,
            r.enable_docs == self.enable_docs,
            r.docs_path@ == self.docs_path@,
            r.openapi_json_path@ == self.openapi_json_path@,
            r.api_servers@ == self.api_servers@,
    {
        let mut this = self;
        this.description = owned(description);
        this
    }

    /// Sets the bind address.
    pub fn bind(self, address: &str) -> (r: Self)
        ensures
            r.bind_address@ == address@,
            r.name@ == self.name@,
            r.description@ == self.description@,
            r.version@ == self.version@,
            r.enable_docs == self.enable_docs,
            r.docs_path@ == self.docs_path@,
            r.openapi_json_path@ == self.openapi_json_path@,
            r.api_servers@ == self.api_servers@,
    {
        let mut this = self;
        this.bind_address = owned(address);
        this
    }

    /// Turns the API description on or off.
    pub fn docs(self, enable: bool) -> (r: Self)
        ensures
            r.enable_docs == enable,
            r.name@ == self.name@,
            r.description@ == self.description@,
            r.version@ == self.version@,
            r.bind_address@ == self.bind_address@,
            r.docs_path@ == self.docs_path@,
            r.openapi_json_path@ == self.openapi_json_path@,
            r.api_servers@ == self.api_servers@,
    {
        let mut this = self;
        this.enable_docs = enable;
        this
    }

    /// Sets the path of the documentation page.
    pub fn docs_path(self, path: &str) -> (r: Self)
        ensures
            r.docs_path@ == path@,
            r.name@ == self.name@,
            r.description@ == self.description@,
            r.version@ == self.version@,
            r.bind_address@ == self.bind_address@,
            r.enable_docs == self.enable_docs,
            r.openapi_json_path@ == self.openapi_json_path@,
            r.api_servers@ == self.api_servers@,
    {
        let mut this = self;
        this.docs_path = owned(path);
        this
    }

    /// Sets the path of the API description document.
    pub fn openapi_json_path(self, path: &str) -> (r: Self)
        ensures
            r.openapi_json_path@ == path@,
            r.name@ == self.name@,
            r.description@ == self.description@,
            r.version@ == self.version@,
            r.bind_address@ == self.bind_address@,
            r.enable_docs == self.enable_docs,
            r.docs_path@ == self.docs_path@,
            r.api_servers@ == self.api_servers@,
    {
        let mut this = self;
        this.openapi_json_path = owned(path);
        this
    }

    /// Adds a server entry at the end of the list.
    pub fn add_server(self, url: &str, description: &str) -> (r: Self)
        ensures
            r.api_servers@.len() == self.api_servers@.len() + 1,
            r.api_servers@.drop_last() == self.api_servers@,
            r.api_servers@.last().url@ == url@,
            r.api_servers@.last().description@ == description@,
            r.name@ == self.name@,
            r.description@ == self.description@,
            r.version@ == self.version@,
            r.bind_address@ == self.bind_address@,
            r.enable_docs == self.enable_docs,
            r.docs_path@ == self.docs_path@,
            r.openapi_json_path@ == self.openapi_json_path@,
    {
        let mut this = self;
        this.api_servers.push(ApiServer { url: owned(url), description: owned(description) });
        proof {
            assert(this.api_servers@.drop_last() =~= self.api_servers@);
        }
        this
    }
}

} // verus!
