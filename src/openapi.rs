//! Settings of the API description document: title, version, contact,
//! license and servers.
use crate::response::opt_view;
use crate::text::owned;
use vstd::prelude::*;

verus! {

/// Settings of the API description document.
#[derive(Debug, Clone)]
pub struct OpenApiConfig {
    pub title: String,
    pub version: String,
    pub description: Option<String>,
    pub terms_of_service: Option<String>,
    pub contact_name: Option<String>,
    pub contact_email: Option<String>,
    pub contact_url: Option<String>,
    pub license_name: Option<String>,
    pub license_url: Option<String>,
    /// Server entries: URL and description.
    pub servers: Vec<(String, String)>,
}

/// Contact details of the document.
#[derive(Debug, Clone)]
pub struct ContactInfo {
    pub name: String,
    pub email: String,
    pub url: String,
}

/// License of the document.
#[derive(Debug, Clone)]
pub struct LicenseInfo {
    pub name: String,
    pub url: String,
}

/// The head of the API description document.
#[derive(Debug, Clone)]
pub struct ApiInfo {
    pub title: String,
    pub version: String,
    pub description: Option<String>,
    pub terms_of_service: Option<String>,
    pub contact: Option<ContactInfo>,
    pub license: Option<LicenseInfo>,
    pub servers: Vec<(String, String)>,
}

fn copy_opt(o: &Option<String>) -> (r: Option<String>)
    ensures
        opt_view(r) == opt_view(*o),
{
    match o {
        Some(s) => Some(owned(s.as_str())),
        None => None,
    }
}

fn copy_servers(v: &Vec<(String, String)>) -> (r: Vec<(String, String)>)
    ensures
        server_views(r@) == server_views(v@),
{
    let mut out: Vec<(String, String)> = Vec::new();
    let mut i: usize = 0;
    while i < v.len()
        invariant
            i <= v@.len(),
            out@.len() == i,
            forall|j: int| 0 <= j < i ==> #[trigger] out@[j].0@ == v@[j].0@ && out@[j].1@ == v@[j].1@,
        decreases v@.len() - i,
    {
        out.push((owned(v[i].0.as_str()), owned(v[i].1.as_str())));
        i = i + 1;
    }
    assert(server_views(out@) =~= server_views(v@));
    out
}

/// The views of server entries.
pub open spec fn server_views(v: Seq<(String, String)>) -> Seq<(Seq<char>, Seq<char>)> {
    v.map_values(|p: (String, String)| (p.0@, p.1@))
}

impl OpenApiConfig {
    /// A document with the given title and version and nothing else.
    pub fn new(title: &str, version: &str) -> (r: Self)
        ensures
            r.title@ == title@,
            r.version@ == version@,
            r.description is None,
            r.terms_of_service is None,
            r.contact_name is None,
            r.contact_email is None,
            r.contact_url is None,
            r.license_name is None,
            r.license_url is None,
            r.servers@ == Seq::<(String, String)>::empty(),
    {
        OpenApiConfig {
            title: owned(title),
            version: owned(version),
            description: None,
            terms_of_service: None,
            contact_name: None,
            contact_email: None,
            contact_url: None,
            license_name: None,
            license_url: None,
            servers: Vec::new(),
        }
    }

    /// Sets the description.
    pub fn description(self, description: &str) -> (r: Self)
        ensures
            opt_view(r.description) == Some(description@),
            r.title@ == self.title@,
            r.version@ == self.version@,
            opt_view(r.terms_of_service) == opt_view(self.terms_of_service),
            opt_view(r.contact_name) == opt_view(self.contact_name),
            opt_view(r.contact_email) == opt_view(self.contact_email),
            opt_view(r.contact_url) == opt_view(self.contact_url),
            opt_view(r.license_name) == opt_view(self.license_name),
            opt_view(r.license_url) == opt_view(self.license_url),
            r.servers@ == self.servers@,
    {
        let mut this = self;
        this.description = Some(owned(description));
        this
    }

    /// Sets the terms-of-service URL.
    pub fn terms_of_service(self, url: &str) -> (r: Self)
        ensures
            opt_view(r.terms_of_service) == Some(url@),
            r.title@ == self.title@,
            r.version@ == self.version@,
            opt_view(r.description) == opt_view(self.description),
            opt_view(r.contact_name) == opt_view(self.contact_name),
            opt_view(r.contact_email) == opt_view(self.contact_email),
            opt_view(r.contact_url) == opt_view(self.contact_url),
            opt_view(r.license_name) == opt_view(self.license_name),
            opt_view(r.license_url) == opt_view(self.license_url),
            r.servers@ == self.servers@,
    {
        let mut this = self;
        this.terms_of_service = Some(owned(url));
        this
    }

    /// Sets the contact details.
    pub fn contact(self, name: &str, email: &str, url: &str) -> (r: Self)
        ensures
            opt_view(r.contact_name) == Some(name@),
            opt_view(r.contact_email) == Some(email@),
            opt_view(r.contact_url) == Some(url@),
            r.title@ == self.title@,
            r.version@ == self.version@,
            opt_view(r.description) == opt_view(self.description),
            opt_view(r.terms_of_service) == opt_view(self.terms_of_service),
            opt_view(r.license_name) == opt_view(self.license_name),
            opt_view(r.license_url) == opt_view(self.license_url),
            r.servers@ == self.servers@,
    {
        let mut this = self;
        this.contact_name = Some(owned(name));
        this.contact_email = Some(owned(email));
        this.contact_url = Some(owned(url));
        this
    }

    /// Sets the license.
    pub fn license(self, name: &str, url: &str) -> (r: Self)
        ensures
            opt_view(r.license_name) == Some(name@),
            opt_view(r.license_url) == Some(url@),
            r.title@ == self.title@,
            r.version@ == self.version@,
            opt_view(r.description) == opt_view(self.description),
            opt_view(r.terms_of_service) == opt_view(self.terms_of_service),
            opt_view(r.contact_name) == opt_view(self.contact_name),
            opt_view(r.contact_email) == opt_view(self.contact_email),
            opt_view(r.contact_url) == opt_view(self.contact_url),
            r.servers@ == self.servers@,
    {
        let mut this = self;
        this.license_name = Some(owned(name));
        this.license_url = Some(owned(url));
        this
    }

    /// Adds a server entry at the end.
    pub fn server(self, url: &str, description: &str) -> (r: Self)
        ensures
            server_views(r.servers@) == server_views(self.servers@).push((url@, description@)),
            r.title@ == self.title@,
            r.version@ == self.version@,
            opt_view(r.description) == opt_view(self.description),
            opt_view(r.terms_of_service) == opt_view(self.terms_of_service),
            opt_view(r.contact_name) == opt_view(self.contact_name),
            opt_view(r.contact_email) == opt_view(self.contact_email),
            opt_view(r.contact_url) == opt_view(self.contact_url),
            opt_view(r.license_name) == opt_view(self.license_name),
            opt_view(r.license_url) == opt_view(self.license_url),
    {
        let mut this = self;
        this.servers.push((owned(url), owned(description)));
        proof {
            assert(server_views(this.servers@) =~= server_views(self.servers@).push((url@, description@)));
        }
        this
    }

    /// The head of the document: contact details only when name, email and
    /// URL are all given, a license only when name and URL are.
    pub fn build(&self) -> (r: ApiInfo)
        ensures
            r.title@ == self.title@,
            r.version@ == self.version@,
            opt_view(r.description) == opt_view(self.description),
            opt_view(r.terms_of_service) == opt_view(self.terms_of_service),
            r.contact is Some <==> (self.contact_name is Some && self.contact_email is Some && self.contact_url is Some),
            r.contact matches Some(c) ==> Some(c.name@) == opt_view(self.contact_name)
                && Some(c.email@) == opt_view(self.contact_email) && Some(c.url@) == opt_view(self.contact_url),
            r.license is Some <==> (self.license_name is Some && self.license_url is Some),
            r.license matches Some(l) ==> Some(l.name@) == opt_view(self.license_name)
                && Some(l.url@) == opt_view(self.license_url),
            server_views(r.servers@) == server_views(self.servers@),
    {
        let contact = match (&self.contact_name, &self.contact_email, &self.contact_url) {
            (Some(n), Some(e), Some(u)) => Some(ContactInfo { name: owned(n.as_str()), email: owned(e.as_str()), url: owned(u.as_str()) }),
            _ => None,
        };
        let license = match (&self.license_name, &self.license_url) {
            (Some(n), Some(u)) => Some(LicenseInfo { name: owned(n.as_str()), url: owned(u.as_str()) }),
            _ => None,
        };
        ApiInfo {
            title: owned(self.title.as_str()),
            version: owned(self.version.as_str()),
            description: copy_opt(&self.description),
            terms_of_service: copy_opt(&self.terms_of_service),
            contact,
            license,
            servers: copy_servers(&self.servers),
        }
    }
}

} // verus!
