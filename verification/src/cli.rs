//! Command-line front of the library: the normalized error type, the
//! configuration record, the `org/app:version` tag grammar, and the command
//! executor that turns one user command into a request description and
//! interprets the response.

use vstd::prelude::*;
use crate::client;
use crate::client::{HttpRequest, spec_code_url, spec_validations_url, spec_version_url};
use crate::json::{JsonValue, json_of, parse_json, spec_get, spec_json_string};
use crate::models::{
    ErrorV, OriginalForm, Validation, VersionForm, Visibility, errors_from_json, spec_code,
    spec_errors, spec_opt_text_field, spec_text_field, spec_validation, spec_version,
};
use crate::text::{dec_u16, spec_dec};

verus! {

/// Universal normalized failure: every fallible step funnels into one
/// human-readable description.
#[derive(Debug)]
pub struct CliError {
    pub desc: String,
}

pub type CliResult<T> = Result<T, CliError>;

impl CliError {
    /// Wraps the rendered description of a lower-level failure verbatim.
    pub fn from_err(desc: &str) -> (r: CliError)
        ensures
            r.desc@ == desc@,
    {
        CliError { desc: String::from_str(desc) }
    }

    /// The human-readable description of the failure.
    pub fn description(&self) -> (r: &str)
        ensures
            r@ == self.desc@,
    {
        self.desc.as_str()
    }
}

/// One profile of the configuration file: the service base URL (optional,
/// with a default) and the bearer token.
#[derive(Debug)]
pub struct Config {
    pub api_url: Option<String>,
    pub token: String,
}

#[verifier::external_type_specification]
#[verifier::external_body]
pub struct ExTomlValue(toml::Value);

/// The document that a configuration text parses to, if it is well-formed.
/// This names the result of parsing with `toml::Table`'s `FromStr`, which
/// depends on the text alone.
pub uninterp spec fn toml_of(s: Seq<char>) -> Option<JsonValue>;

/// Glue for `parse_config`: rebuilds the parsed table, node for node, as the
/// library's own document tree.
#[verifier::external_body]
fn translate_toml(v: toml::Value) -> JsonValue {
    match v {
        toml::Value::String(s) => JsonValue::Text(s),
        toml::Value::Boolean(b) => JsonValue::Bool(b),
        n @ (toml::Value::Integer(_) | toml::Value::Float(_)) => JsonValue::Number(n.to_string()),
        toml::Value::Datetime(d) => JsonValue::Text(d.to_string()),
        toml::Value::Array(items) => JsonValue::List(
            items.into_iter().map(translate_toml).collect(),
        ),
        toml::Value::Table(t) => JsonValue::Object(
            t.into_iter().map(|(k, v)| (k, translate_toml(v))).collect(),
        ),
    }
}

/// Relies on `toml::Table`'s `FromStr`: parses the full text as one
/// configuration document, deterministically in the text, and reports a
/// syntax error otherwise.  The error's rendered description is passed
/// through.
#[verifier::external_body]
fn parse_config(text: &str) -> (r: Result<JsonValue, String>)
    ensures
        r is Ok <==> toml_of(text@) is Some,
        r matches Ok(v) ==> toml_of(text@) == Some(v),
{
    match text.parse::<toml::Table>() {
        Ok(t) => Ok(translate_toml(toml::Value::Table(t))),
        Err(e) => Err(format!("{}", e)),
    }
}

impl Config {
    /// Reads the selected profile out of the configuration text: the
    /// required `token` and the optional `api_url`.
    pub fn load(text: &str, profile_name: &str) -> (r: CliResult<Config>)
        ensures
            toml_of(text@) is None ==> (r matches Err(e) && (exists|t: Seq<char>|
                e.desc@ == "failed to parse config: "@ + t)),
            toml_of(text@) matches Some(doc) ==> match spec_get(doc, profile_name@) {
                None => r matches Err(e) && e.desc@ == "no profile found for "@ + profile_name@,
                Some(profile) => match spec_text_field(profile, "token"@) {
                    None => r matches Err(e) && e.desc@ == "no token found for profile "@
                        + profile_name@,
                    Some(token) => match spec_opt_text_field(profile, "api_url"@) {
                        None => r matches Err(e) && e.desc@
                            == "api_url must be a string in profile "@ + profile_name@,
                        Some(api_url) => r matches Ok(c) && c.token@ == token
                            && c.api_url.deep_view() == api_url,
                    },
                },
            },
    {
        let doc = match parse_config(text) {
            Ok(d) => d,
            Err(perr) => {
                let mut desc = String::from_str("failed to parse config: ");
                desc.append(perr.as_str());
                return Err(CliError { desc });
            },
        };
        let profile = match doc.get(profile_name) {
            Some(p) => p,
            None => {
                let mut desc = String::from_str("no profile found for ");
                desc.append(profile_name);
                return Err(CliError { desc });
            },
        };
        let token = match profile.get("token") {
            Some(JsonValue::Text(t)) => t.clone(),
            _ => {
                let mut desc = String::from_str("no token found for profile ");
                desc.append(profile_name);
                return Err(CliError { desc });
            },
        };
        let api_url = match profile.get("api_url") {
            None => None,
            Some(JsonValue::Null) => None,
            Some(JsonValue::Text(u)) => Some(u.clone()),
            Some(_) => {
                let mut desc = String::from_str("api_url must be a string in profile ");
                desc.append(profile_name);
                return Err(CliError { desc });
            },
        };
        Ok(Config { api_url, token })
    }
}

/// An `organization/application` pair parsed from a tag.
#[derive(Debug)]
pub struct Repo(pub String, pub String);

/// A fully qualified `organization/application:version` address.
#[derive(Debug)]
pub struct Revision(pub Repo, pub String);

/// Placeholder for a future manifest-driven mode: the set of revisions a
/// project depends on.
pub struct Project {
    pub dependencies: Vec<Revision>,
}

/// Index of the first occurrence of `c` in `s`, if any.
pub open spec fn find_char(s: Seq<char>, c: char) -> Option<int>
    decreases s.len(),
{
    if s.len() == 0 {
        None
    } else if s[0] == c {
        Some(0int)
    } else {
        match find_char(s.drop_first(), c) {
            Some(i) => Some(i + 1),
            None => None,
        }
    }
}

/// `find_char` returns exactly the first index holding `c`.
pub proof fn lemma_find_char_some(s: Seq<char>, c: char, i: int)
    requires
        0 <= i < s.len(),
        s[i] == c,
        forall|j: int| 0 <= j < i ==> s[j] != c,
    ensures
        find_char(s, c) == Some(i),
    decreases i,
{
    if i > 0 {
        lemma_find_char_some(s.drop_first(), c, i - 1);
    }
}

/// `find_char` finds nothing when no position holds `c`.
pub proof fn lemma_find_char_none(s: Seq<char>, c: char)
    requires
        forall|j: int| 0 <= j < s.len() ==> s[j] != c,
    ensures
        find_char(s, c) is None,
    decreases s.len(),
{
    if s.len() > 0 {
        lemma_find_char_none(s.drop_first(), c);
    }
}

/// The ways a tag can fail to parse, each naming the missing segment.
pub enum TagError {
    NoSlash,
    EmptyOrganization,
    EmptyApplication,
    NoColon,
    EmptyVersion,
}

/// The exact error description reported for each malformed tag.
pub open spec fn tag_error_desc(e: TagError, tag: Seq<char>) -> Seq<char> {
    match e {
        TagError::NoSlash => "failed to locate `/` in tag: "@ + tag,
        TagError::EmptyOrganization => "organization was empty in tag: "@ + tag,
        TagError::EmptyApplication => "application was empty in tag: "@ + tag,
        TagError::NoColon => "failed to locate `:` in "@ + tag,
        TagError::EmptyVersion => "version was empty in tag: "@ + tag,
    }
}

/// Splits a tag at the first `/` into a non-empty organization key and a
/// non-empty remainder.
pub open spec fn spec_repo(tag: Seq<char>) -> Result<(Seq<char>, Seq<char>), TagError> {
    match find_char(tag, '/') {
        None => Err(TagError::NoSlash),
        Some(i) => {
            let org = tag.take(i);
            let rest = tag.skip(i + 1);
            if org.len() == 0 {
                Err(TagError::EmptyOrganization)
            } else if rest.len() == 0 {
                Err(TagError::EmptyApplication)
            } else {
                Ok((org, rest))
            }
        },
    }
}

/// Splits the remainder of a repo at the first `:` into a non-empty
/// application key and a non-empty version.
pub open spec fn spec_revision(tag: Seq<char>) -> Result<(Seq<char>, Seq<char>, Seq<char>), TagError> {
    match spec_repo(tag) {
        Err(e) => Err(e),
        Ok((org, rest)) => match find_char(rest, ':') {
            None => Err(TagError::NoColon),
            Some(j) => {
                let app = rest.take(j);
                let version = rest.skip(j + 1);
                if app.len() == 0 {
                    Err(TagError::EmptyApplication)
                } else if version.len() == 0 {
                    Err(TagError::EmptyVersion)
                } else {
                    Ok((org, app, version))
                }
            },
        },
    }
}

/// First index of `c` in `s`, scanning forward.
fn find_char_at(s: &str, c: char) -> (r: Option<usize>)
    ensures
        match r {
            Some(i) => i < s@.len() && find_char(s@, c) == Some(i as int),
            None => find_char(s@, c) is None,
        },
{
    let len = s.unicode_len();
    let mut i: usize = 0;
    while i < len
        invariant
            len == s@.len(),
            i <= len,
            forall|j: int| 0 <= j < i ==> s@[j] != c,
        decreases len - i,
    {
        if s.get_char(i) == c {
            proof {
                lemma_find_char_some(s@, c, i as int);
            }
            return Some(i);
        }
        i += 1;
    }
    proof {
        lemma_find_char_none(s@, c);
    }
    None
}

impl Repo {
    /// Parses `organization/application`, rejecting a tag without a `/` or
    /// with an empty segment, with an error naming the missing piece.
    pub fn from_str(tag: &str) -> (r: Result<Repo, CliError>)
        ensures
            match spec_repo(tag@) {
                Ok(parts) => r matches Ok(rp) && rp.0@ == parts.0 && rp.1@ == parts.1,
                Err(e) => r matches Err(ce) && ce.desc@ == tag_error_desc(e, tag@),
            },
    {
        let len = tag.unicode_len();
        match find_char_at(tag, '/') {
            None => {
                let mut desc = String::from_str("failed to locate `/` in tag: ");
                desc.append(tag);
                Err(CliError { desc })
            },
            Some(i) => {
                if i == 0 {
                    let mut desc = String::from_str("organization was empty in tag: ");
                    desc.append(tag);
                    Err(CliError { desc })
                } else if i + 1 == len {
                    let mut desc = String::from_str("application was empty in tag: ");
                    desc.append(tag);
                    Err(CliError { desc })
                } else {
                    let org = tag.substring_char(0, i);
                    let rest = tag.substring_char(i + 1, len);
                    proof {
                        assert(org@ =~= tag@.take(i as int));
                        assert(rest@ =~= tag@.skip(i + 1));
                    }
                    Ok(Repo(String::from_str(org), String::from_str(rest)))
                }
            },
        }
    }
}

impl Revision {
    /// Parses `organization/application:version`, rejecting a tag with a
    /// missing delimiter or an empty segment, with an error naming the
    /// missing piece.
    pub fn from_str(tag: &str) -> (r: Result<Revision, CliError>)
        ensures
            match spec_revision(tag@) {
                Ok(parts) => r matches Ok(rv) && rv.0.0@ == parts.0 && rv.0.1@ == parts.1
                    && rv.1@ == parts.2,
                Err(e) => r matches Err(ce) && ce.desc@ == tag_error_desc(e, tag@),
            },
    {
        let repo = match Repo::from_str(tag) {
            Ok(repo) => repo,
            Err(e) => {
                return Err(e);
            },
        };
        let Repo(org, rest) = repo;
        let rest_len = rest.as_str().unicode_len();
        match find_char_at(rest.as_str(), ':') {
            None => {
                let mut desc = String::from_str("failed to locate `:` in ");
                desc.append(tag);
                Err(CliError { desc })
            },
            Some(j) => {
                if j == 0 {
                    let mut desc = String::from_str("application was empty in tag: ");
                    desc.append(tag);
                    Err(CliError { desc })
                } else if j + 1 == rest_len {
                    let mut desc = String::from_str("version was empty in tag: ");
                    desc.append(tag);
                    Err(CliError { desc })
                } else {
                    let app = rest.as_str().substring_char(0, j);
                    let version = rest.as_str().substring_char(j + 1, rest_len);
                    proof {
                        assert(app@ =~= rest@.take(j as int));
                        assert(version@ =~= rest@.skip(j + 1));
                    }
                    Ok(Revision(Repo(org, String::from_str(app)), String::from_str(version)))
                }
            },
        }
    }
}

/// Tag-grammar soundness and completeness: any string assembled as
/// `org "/" app ":" version` with non-empty segments, no `/` in the
/// organization and no `:` in the application parses back to exactly those
/// three segments.
pub proof fn lemma_tag_decomposition(org: Seq<char>, app: Seq<char>, version: Seq<char>)
    requires
        org.len() > 0,
        app.len() > 0,
        version.len() > 0,
        forall|j: int| 0 <= j < org.len() ==> org[j] != '/',
        forall|j: int| 0 <= j < app.len() ==> app[j] != ':',
    ensures
        spec_revision(org + seq!['/'] + app + seq![':'] + version) == Ok::<_, TagError>(
            (org, app, version),
        ),
{
    let tag = org + seq!['/'] + app + seq![':'] + version;
    let rest = app + seq![':'] + version;
    assert(tag.len() == org.len() + 1 + app.len() + 1 + version.len());
    assert(tag[org.len() as int] == '/');
    assert(forall|j: int| 0 <= j < org.len() ==> tag[j] == org[j]);
    lemma_find_char_some(tag, '/', org.len() as int);
    assert(tag.take(org.len() as int) =~= org);
    assert(tag.skip(org.len() as int + 1) =~= rest);
    assert(rest[app.len() as int] == ':');
    assert(forall|j: int| 0 <= j < app.len() ==> rest[j] == app[j]);
    lemma_find_char_some(rest, ':', app.len() as int);
    assert(rest.take(app.len() as int) =~= app);
    assert(rest.skip(app.len() as int + 1) =~= version);
}

// ---------------------------------------------------------------------------
// The command executor.
// ---------------------------------------------------------------------------

/// Whether a status code reports success.
pub open spec fn spec_is_success(status: u16) -> bool {
    200 <= status < 300
}

/// The service location a configuration selects.
pub open spec fn spec_base_url(c: Config) -> Seq<char> {
    match c.api_url {
        Some(u) => u@,
        None => "http://api.apidoc.me"@,
    }
}

/// Opening of the description reported when a response body is not JSON; the
/// parser's own message follows it.
pub open spec fn spec_parse_fail_head(status: u16, body: Seq<char>) -> Seq<char> {
    "failed to parse HTTP response body as JSON (status was "@ + spec_dec(status as int)
        + ", body was `"@ + body + "`): "@
}

/// Description reported when a well-formed body does not fit the shape its
/// status class calls for.
pub open spec fn spec_decode_fail_desc(status: u16, body: Seq<char>) -> Seq<char> {
    "failed to decode HTTP response body (status was "@ + spec_dec(status as int)
        + ", body was `"@ + body + "`)"@
}

/// The line printed for each error record the service reports.
pub open spec fn spec_error_lines(errs: Seq<ErrorV>) -> Seq<Seq<char>> {
    Seq::new(errs.len(), |i: int| "error: "@ + errs[i].message)
}

/// The line printed for each message of an invalid validation outcome.
pub open spec fn spec_validation_lines(msgs: Seq<Seq<char>>) -> Seq<Seq<char>> {
    Seq::new(msgs.len(), |i: int| "validation error: "@ + msgs[i])
}

/// What interpreting a non-success response does: a decodable error list is
/// reported line by line before one summarizing failure; anything else is a
/// decode failure carrying the status and the raw body.
pub open spec fn spec_api_error_report(
    doc: JsonValue,
    status: u16,
    body: Seq<char>,
    old_err: Seq<Seq<char>>,
    new_err: Seq<Seq<char>>,
    r: Result<(), CliError>,
) -> bool {
    match spec_errors(doc) {
        Some(errs) => {
            &&& new_err == old_err + spec_error_lines(errs)
            &&& r matches Err(e) && e.desc@ == "got error response from server"@
        },
        None => {
            &&& new_err == old_err
            &&& r matches Err(e) && e.desc@ == spec_decode_fail_desc(status, body)
        },
    }
}

/// Executes commands against one configuration.  The lines a command writes
/// to the output and error streams are buffered here, in order; the caller
/// flushes them to the real streams.
pub struct Cli {
    pub config: Config,
    pub out: Vec<String>,
    pub err: Vec<String>,
}

fn parse_fail_error(status: u16, body: &str, perr: &str) -> (r: CliError)
    ensures
        r.desc@ == spec_parse_fail_head(status, body@) + perr@,
{
    let mut desc = String::from_str("failed to parse HTTP response body as JSON (status was ");
    let digits = dec_u16(status);
    desc.append(digits.as_str());
    desc.append(", body was `");
    desc.append(body);
    desc.append("`): ");
    desc.append(perr);
    assert(desc@ =~= spec_parse_fail_head(status, body@) + perr@);
    CliError { desc }
}

fn decode_fail_error(status: u16, body: &str) -> (r: CliError)
    ensures
        r.desc@ == spec_decode_fail_desc(status, body@),
{
    let mut desc = String::from_str("failed to decode HTTP response body (status was ");
    let digits = dec_u16(status);
    desc.append(digits.as_str());
    desc.append(", body was `");
    desc.append(body);
    desc.append("`)");
    assert(desc@ =~= spec_decode_fail_desc(status, body@));
    CliError { desc }
}

impl Cli {
    /// A fresh executor with empty stream buffers.
    pub fn new(config: Config) -> (r: Cli)
        ensures
            r.config == config,
            r.out@ == Seq::<String>::empty(),
            r.err@ == Seq::<String>::empty(),
    {
        Cli { config, out: Vec::new(), err: Vec::new() }
    }

    /// The configured service location, or the well-known default.
    fn base_url(&self) -> (r: String)
        ensures
            r@ == spec_base_url(self.config),
    {
        match &self.config.api_url {
            Some(u) => u.clone(),
            None => String::from_str("http://api.apidoc.me"),
        }
    }

    /// The generated-code client for this configuration.
    pub fn code(&self) -> (r: client::Code)
        ensures
            r.base_url@ == spec_base_url(self.config),
            r.token@ == self.config.token@,
    {
        client::Code::new(self.base_url(), self.config.token.clone())
    }

    /// The validation client for this configuration.
    pub fn validations(&self) -> (r: client::Validations)
        ensures
            r.base_url@ == spec_base_url(self.config),
    {
        client::Validations::new(self.base_url())
    }

    /// The publishing client for this configuration.
    pub fn versions(&self) -> (r: client::Versions)
        ensures
            r.base_url@ == spec_base_url(self.config),
            r.token@ == self.config.token@,
    {
        client::Versions::new(self.base_url(), self.config.token.clone())
    }

    /// Builds the validation request: an unauthenticated POST of the
    /// document itself.
    pub fn check(&mut self, input: &str) -> (r: CliResult<HttpRequest>)
        ensures
            *final(self) == *old(self),
            r matches Ok(req) && req.method is Post && req.url@ == spec_validations_url(
                spec_base_url(old(self).config),
            ) && req.basic_auth_user is None && req.content_type is None && (req.body matches Some(
                b,
            ) && b@ == input@),
    {
        let validations = self.validations();
        Ok(validations.post(input))
    }

    /// Builds the generated-code request for a parsed tag: an authenticated
    /// GET naming organization, application, version and generator.
    pub fn generate(&mut self, tag: &str, target: &str) -> (r: CliResult<HttpRequest>)
        ensures
            *final(self) == *old(self),
            match spec_revision(tag@) {
                Ok(parts) => r matches Ok(req) && req.method is Get && req.url@ == spec_code_url(
                    spec_base_url(old(self).config),
                    parts.0,
                    parts.1,
                    parts.2,
                    target@,
                ) && (req.basic_auth_user matches Some(u) && u@ == old(self).config.token@)
                    && req.content_type is None && req.body is None,
                Err(e) => r matches Err(ce) && ce.desc@ == tag_error_desc(e, tag@),
            },
    {
        let revision = match Revision::from_str(tag) {
            Ok(rv) => rv,
            Err(e) => {
                return Err(e);
            },
        };
        let Revision(Repo(org, app), version) = revision;
        let code = self.code();
        Ok(
            code.get_by_organization_key_and_application_key_and_version_and_generator_key(
                org.as_str(),
                app.as_str(),
                version.as_str(),
                target,
            ),
        )
    }

    /// Builds the publish request for a parsed tag and a document.  An
    /// unrecognized visibility is rejected here, before any request exists;
    /// otherwise one progress line goes to the output stream and the
    /// submission is carried JSON-encoded in the request body.
    pub fn push(&mut self, tag: &str, input: &str, visibility: &Visibility) -> (r: CliResult<
        HttpRequest,
    >)
        ensures
            final(self).config == old(self).config,
            final(self).err == old(self).err,
            visibility@ is Undefined ==> {
                &&& r matches Err(e) && e.desc@ == "invalid visibility: "@ + visibility@.wire()
                &&& final(self).out == old(self).out
            },
            !(visibility@ is Undefined) ==> match spec_revision(tag@) {
                Err(e) => r matches Err(ce) && ce.desc@ == tag_error_desc(e, tag@)
                    && final(self).out == old(self).out,
                Ok(parts) => {
                    &&& final(self).out.deep_view() == old(self).out.deep_view() + seq![
                        "pushing to "@ + parts.0 + "/"@ + parts.1 + ":"@ + parts.2,
                    ]
                    &&& r matches Ok(req) && req.method is Put && req.url@ == spec_version_url(
                        spec_base_url(old(self).config),
                        parts.0,
                        parts.1,
                        parts.2,
                    ) && (req.basic_auth_user matches Some(u) && u@ == old(self).config.token@) && (
                    req.content_type matches Some(c) && c@ == "application/json"@) && (
                    req.body matches Some(b) && b@ == spec_push_body(input@, visibility@))
                },
            },
    {
        if let Err(bad) = visibility.valid() {
            let mut desc = String::from_str("invalid visibility: ");
            let wire = bad.encode();
            desc.append(wire.as_str());
            return Err(CliError { desc });
        }
        let revision = match Revision::from_str(tag) {
            Ok(rv) => rv,
            Err(e) => {
                return Err(e);
            },
        };
        let Revision(Repo(org, app), version) = revision;
        let mut line = String::from_str("pushing to ");
        line.append(org.as_str());
        line.append("/");
        line.append(app.as_str());
        line.append(":");
        line.append(version.as_str());
        self.out.push(line);
        proof {
            assert(self.out.deep_view() =~= old(self).out.deep_view() + seq![
                "pushing to "@ + org@ + "/"@ + app@ + ":"@ + version@,
            ]);
        }
        let form = VersionForm {
            original_form: OriginalForm { original_type: None, data: String::from_str(input) },
            visibility: Some(visibility.clone()),
        };
        let versions = self.versions();
        let req = versions.put_by_organization_key_and_application_key_and_version(
            org.as_str(),
            app.as_str(),
            version.as_str(),
            form,
        );
        proof {
            assert(req.body matches Some(b) && b@ =~= spec_push_body(input@, visibility@));
        }
        Ok(req)
    }

    /// Reports a non-success response: each decodable error record gets its
    /// own error line before one summarizing failure; an undecodable body
    /// becomes a decode failure carrying the status and the raw body.
    fn report_api_errors(&mut self, status: u16, body: &str, doc: &JsonValue) -> (r: CliError)
        ensures
            final(self).config == old(self).config,
            final(self).out == old(self).out,
            spec_api_error_report(
                *doc,
                status,
                body@,
                old(self).err.deep_view(),
                final(self).err.deep_view(),
                Err(r),
            ),
    {
        match errors_from_json(doc) {
            Some(errs) => {
                let mut i: usize = 0;
                while i < errs.len()
                    invariant
                        self.config == old(self).config,
                        self.out == old(self).out,
                        i <= errs@.len(),
                        self.err@.len() == old(self).err@.len() + i,
                        forall|j: int|
                            0 <= j < old(self).err@.len() ==> self.err@[j] == old(self).err@[j],
                        forall|j: int|
                            0 <= j < i ==> self.err@[old(self).err@.len() + j]@ == "error: "@
                                + errs@[j]@.message,
                    decreases errs@.len() - i,
                {
                    let mut line = String::from_str("error: ");
                    line.append(errs[i].message.as_str());
                    self.err.push(line);
                    i += 1;
                }
                proof {
                    assert forall|j: int| 0 <= j < self.err@.len() implies self.err.deep_view()[j]
                        == (old(self).err.deep_view() + spec_error_lines(errs.deep_view()))[j] by {
                        assert(self.err.deep_view()[j] == self.err@[j]@);
                        if j < old(self).err@.len() {
                            assert(old(self).err.deep_view()[j] == old(self).err@[j]@);
                        } else {
                            assert(errs.deep_view()[j - old(self).err@.len()] == errs@[j - old(
                                self,
                            ).err@.len()]@);
                        }
                    }
                    assert(self.err.deep_view() =~= old(self).err.deep_view() + spec_error_lines(
                        errs.deep_view(),
                    ));
                }
                CliError { desc: String::from_str("got error response from server") }
            },
            None => decode_fail_error(status, body),
        }
    }

    /// Interprets the validation response.  The status class picks the
    /// shape to decode; within a success body, the outcome's own flag
    /// decides the result: a failed validation prints one line per reported
    /// message and ends in a generic failure.
    pub fn check_response(&mut self, status: u16, body: &str) -> (r: CliResult<()>)
        ensures
            final(self).config == old(self).config,
            json_of(body@) is None ==> {
                &&& r matches Err(e) && (exists|t: Seq<char>|
                    e.desc@ == spec_parse_fail_head(status, body@) + t)
                &&& final(self).out == old(self).out
                &&& final(self).err == old(self).err
            },
            json_of(body@) matches Some(doc) ==> {
                &&& final(self).out == old(self).out
                &&& spec_is_success(status) ==> match spec_validation(doc) {
                    Some(val) => if val.valid {
                        r is Ok && final(self).err == old(self).err
                    } else {
                        (r matches Err(e) && e.desc@ == "input invalid"@)
                            && final(self).err.deep_view() == old(self).err.deep_view()
                            + spec_validation_lines(val.errors)
                    },
                    None => (r matches Err(e) && e.desc@ == spec_decode_fail_desc(status, body@))
                        && final(self).err == old(self).err,
                }
                &&& !spec_is_success(status) ==> spec_api_error_report(
                    doc,
                    status,
                    body@,
                    old(self).err.deep_view(),
                    final(self).err.deep_view(),
                    r,
                )
            },
    {
        let doc = match parse_json(body) {
            Ok(d) => d,
            Err(perr) => {
                let e = parse_fail_error(status, body, perr.as_str());
                proof {
                    assert(e.desc@ == spec_parse_fail_head(status, body@) + perr@);
                }
                return Err(e);
            },
        };
        if 200 <= status && status < 300 {
            match Validation::from_json(&doc) {
                Some(validation) => {
                    if validation.valid {
                        Ok(())
                    } else {
                        let mut i: usize = 0;
                        while i < validation.errors.len()
                            invariant
                                self.config == old(self).config,
                                self.out == old(self).out,
                                i <= validation.errors@.len(),
                                self.err@.len() == old(self).err@.len() + i,
                                forall|j: int|
                                    0 <= j < old(self).err@.len() ==> self.err@[j] == old(
                                        self,
                                    ).err@[j],
                                forall|j: int|
                                    0 <= j < i ==> self.err@[old(self).err@.len() + j]@
                                        == "validation error: "@ + validation.errors@[j]@,
                            decreases validation.errors@.len() - i,
                        {
                            let mut line = String::from_str("validation error: ");
                            line.append(validation.errors[i].as_str());
                            self.err.push(line);
                            i += 1;
                        }
                        proof {
                            assert forall|j: int| 0 <= j < self.err@.len() implies self.err.deep_view()[j]
                                == (old(self).err.deep_view() + spec_validation_lines(
                                validation@.errors,
                            ))[j] by {
                                assert(self.err.deep_view()[j] == self.err@[j]@);
                                if j < old(self).err@.len() {
                                    assert(old(self).err.deep_view()[j] == old(self).err@[j]@);
                                }
                            }
                            assert(self.err.deep_view() =~= old(self).err.deep_view()
                                + spec_validation_lines(validation@.errors));
                        }
                        Err(CliError::from_err("input invalid"))
                    }
                },
                None => Err(decode_fail_error(status, body)),
            }
        } else {
            let e = self.report_api_errors(status, body, &doc);
            Err(e)
        }
    }

    /// Interprets the generated-code response.  A decodable success body
    /// writes the source text, verbatim, as one output line; everything
    /// else is an error.
    pub fn generate_response(&mut self, status: u16, body: &str) -> (r: CliResult<()>)
        ensures
            final(self).config == old(self).config,
            json_of(body@) is None ==> {
                &&& r matches Err(e) && (exists|t: Seq<char>|
                    e.desc@ == spec_parse_fail_head(status, body@) + t)
                &&& final(self).out == old(self).out
                &&& final(self).err == old(self).err
            },
            json_of(body@) matches Some(doc) ==> {
                &&& spec_is_success(status) ==> match spec_code(doc) {
                    Some(code) => {
                        &&& r is Ok
                        &&& final(self).out.deep_view() == old(self).out.deep_view() + seq![
                            code.source,
                        ]
                        &&& final(self).err == old(self).err
                    },
                    None => {
                        &&& r matches Err(e) && e.desc@ == spec_decode_fail_desc(status, body@)
                        &&& final(self).out == old(self).out
                        &&& final(self).err == old(self).err
                    },
                }
                &&& !spec_is_success(status) ==> final(self).out == old(self).out
                    && spec_api_error_report(
                    doc,
                    status,
                    body@,
                    old(self).err.deep_view(),
                    final(self).err.deep_view(),
                    r,
                )
            },
    {
        let doc = match parse_json(body) {
            Ok(d) => d,
            Err(perr) => {
                let e = parse_fail_error(status, body, perr.as_str());
                proof {
                    assert(e.desc@ == spec_parse_fail_head(status, body@) + perr@);
                }
                return Err(e);
            },
        };
        if 200 <= status && status < 300 {
            match crate::models::Code::from_json(&doc) {
                Some(code) => {
                    self.out.push(code.source);
                    proof {
                        assert forall|j: int| 0 <= j < self.out@.len() implies self.out.deep_view()[j]
                            == (old(self).out.deep_view() + seq![
                            spec_code(doc).unwrap().source,
                        ])[j] by {
                            assert(self.out.deep_view()[j] == self.out@[j]@);
                            if j < old(self).out@.len() {
                                assert(old(self).out.deep_view()[j] == old(self).out@[j]@);
                            }
                        }
                        assert(self.out.deep_view() =~= old(self).out.deep_view() + seq![
                            spec_code(doc).unwrap().source,
                        ]);
                    }
                    Ok(())
                },
                None => Err(decode_fail_error(status, body)),
            }
        } else {
            let e = self.report_api_errors(status, body, &doc);
            Err(e)
        }
    }

    /// Interprets the publish response.  A decodable success body confirms
    /// the push by its existence alone and produces no output; everything
    /// else is an error.
    pub fn push_response(&mut self, status: u16, body: &str) -> (r: CliResult<()>)
        ensures
            final(self).config == old(self).config,
            json_of(body@) is None ==> {
                &&& r matches Err(e) && (exists|t: Seq<char>|
                    e.desc@ == spec_parse_fail_head(status, body@) + t)
                &&& final(self).out == old(self).out
                &&& final(self).err == old(self).err
            },
            json_of(body@) matches Some(doc) ==> {
                &&& final(self).out == old(self).out
                &&& spec_is_success(status) ==> {
                    if spec_version(doc) is Some {
                        r is Ok && final(self).err == old(self).err
                    } else {
                        (r matches Err(e) && e.desc@ == spec_decode_fail_desc(status, body@))
                            && final(self).err == old(self).err
                    }
                }
                &&& !spec_is_success(status) ==> spec_api_error_report(
                    doc,
                    status,
                    body@,
                    old(self).err.deep_view(),
                    final(self).err.deep_view(),
                    r,
                )
            },
    {
        let doc = match parse_json(body) {
            Ok(d) => d,
            Err(perr) => {
                let e = parse_fail_error(status, body, perr.as_str());
                proof {
                    assert(e.desc@ == spec_parse_fail_head(status, body@) + perr@);
                }
                return Err(e);
            },
        };
        if 200 <= status && status < 300 {
            match crate::models::Version::from_json(&doc) {
                Some(_) => Ok(()),
                None => Err(decode_fail_error(status, body)),
            }
        } else {
            let e = self.report_api_errors(status, body, &doc);
            Err(e)
        }
    }
}

/// The exact body of a publish request: no declared format, the document
/// itself, and the chosen visibility.
pub open spec fn spec_push_body(data: Seq<char>, vis: crate::models::VisibilityV) -> Seq<char> {
    "{\"original_form\":"@ + ("{\"type\":"@ + "null"@ + ",\"data\":"@ + spec_json_string(data)
        + "}"@) + ",\"visibility\":"@ + spec_json_string(vis.wire()) + "}"@
}

} // verus!
