//! Transport client: three thin request builders, one per operation.  Each
//! owns URL composition and credential attachment and produces a complete
//! description of the outbound HTTP request as plain values; performing the
//! request is the caller's affair.

use vstd::prelude::*;
use crate::models::{VersionForm, spec_version_form_json};

verus! {

/// HTTP method of a request this library composes.
#[derive(PartialEq, Eq, Structural, Clone, Copy, Debug)]
pub enum Method {
    Get,
    Post,
    Put,
}

/// A complete description of one outbound HTTP request.
#[derive(Debug)]
pub struct HttpRequest {
    pub method: Method,
    pub url: String,
    /// Basic-scheme credentials: the token as user name, empty password.
    pub basic_auth_user: Option<String>,
    /// The `Content-Type` header, when one is sent.
    pub content_type: Option<String>,
    pub body: Option<String>,
}

/// The content type of a JSON request body.
pub fn application_json() -> (r: String)
    ensures
        r@ == "application/json"@,
{
    String::from_str("application/json")
}

/// The URL of the generated-code resource.
pub open spec fn spec_code_url(
    base: Seq<char>,
    org: Seq<char>,
    app: Seq<char>,
    version: Seq<char>,
    generator: Seq<char>,
) -> Seq<char> {
    base + "/"@ + org + "/"@ + app + "/"@ + version + "/"@ + generator
}

/// The URL of the validation resource.
pub open spec fn spec_validations_url(base: Seq<char>) -> Seq<char> {
    base + "/validations"@
}

/// The URL of the version resource.
pub open spec fn spec_version_url(
    base: Seq<char>,
    org: Seq<char>,
    app: Seq<char>,
    version: Seq<char>,
) -> Seq<char> {
    base + "/"@ + org + "/"@ + app + "/"@ + version
}

/// Fetches generated source code; authenticated.
pub struct Code {
    pub base_url: String,
    pub token: String,
}

impl Code {
    pub fn new(base_url: String, token: String) -> (r: Code)
        ensures
            r.base_url == base_url,
            r.token == token,
    {
        Code { base_url, token }
    }

    /// An authenticated GET of `{base}/{org}/{app}/{version}/{generator}`.
    pub fn get_by_organization_key_and_application_key_and_version_and_generator_key(
        &self,
        organization_key: &str,
        application_key: &str,
        version: &str,
        generator_key: &str,
    ) -> (r: HttpRequest)
        ensures
            r.method is Get,
            r.url@ == spec_code_url(
                self.base_url@,
                organization_key@,
                application_key@,
                version@,
                generator_key@,
            ),
            r.basic_auth_user matches Some(u) && u@ == self.token@,
            r.content_type is None,
            r.body is None,
    {
        let mut url = self.base_url.clone();
        url.append("/");
        url.append(organization_key);
        url.append("/");
        url.append(application_key);
        url.append("/");
        url.append(version);
        url.append("/");
        url.append(generator_key);
        assert(url@ =~= spec_code_url(
            self.base_url@,
            organization_key@,
            application_key@,
            version@,
            generator_key@,
        ));
        HttpRequest {
            method: Method::Get,
            url,
            basic_auth_user: Some(self.token.clone()),
            content_type: None,
            body: None,
        }
    }
}

/// Submits a document for validation; unauthenticated.
pub struct Validations {
    pub base_url: String,
}

impl Validations {
    pub fn new(base_url: String) -> (r: Validations)
        ensures
            r.base_url == base_url,
    {
        Validations { base_url }
    }

    /// A POST of the raw document body to `{base}/validations`.
    pub fn post(&self, value: &str) -> (r: HttpRequest)
        ensures
            r.method is Post,
            r.url@ == spec_validations_url(self.base_url@),
            r.basic_auth_user is None,
            r.content_type is None,
            r.body matches Some(b) && b@ == value@,
    {
        let mut url = self.base_url.clone();
        url.append("/validations");
        HttpRequest {
            method: Method::Post,
            url,
            basic_auth_user: None,
            content_type: None,
            body: Some(String::from_str(value)),
        }
    }
}

/// Publishes a new version of a specification; authenticated.
pub struct Versions {
    pub base_url: String,
    pub token: String,
}

impl Versions {
    pub fn new(base_url: String, token: String) -> (r: Versions)
        ensures
            r.base_url == base_url,
            r.token == token,
    {
        Versions { base_url, token }
    }

    /// An authenticated PUT of the JSON-encoded submission to
    /// `{base}/{org}/{app}/{version}`, with a JSON content type.
    pub fn put_by_organization_key_and_application_key_and_version(
        &self,
        organization_key: &str,
        application_key: &str,
        version: &str,
        version_form: VersionForm,
    ) -> (r: HttpRequest)
        ensures
            r.method is Put,
            r.url@ == spec_version_url(
                self.base_url@,
                organization_key@,
                application_key@,
                version@,
            ),
            r.basic_auth_user matches Some(u) && u@ == self.token@,
            r.content_type matches Some(c) && c@ == "application/json"@,
            r.body matches Some(b) && b@ == spec_version_form_json(version_form),
    {
        let mut url = self.base_url.clone();
        url.append("/");
        url.append(organization_key);
        url.append("/");
        url.append(application_key);
        url.append("/");
        url.append(version);
        assert(url@ =~= spec_version_url(
            self.base_url@,
            organization_key@,
            application_key@,
            version@,
        ));
        let body = version_form.to_json();
        HttpRequest {
            method: Method::Put,
            url,
            basic_auth_user: Some(self.token.clone()),
            content_type: Some(application_json()),
            body: Some(body),
        }
    }
}

} // verus!
