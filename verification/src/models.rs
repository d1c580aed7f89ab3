//! The data-transfer records exchanged with the service, the three open
//! enumerations with their wire strings, and the decoding of each record
//! shape out of a parsed JSON document.

use vstd::prelude::*;
use crate::json::{JsonValue, spec_get};
use crate::text::str_eq;

verus! {

// ---------------------------------------------------------------------------
// Open enumerations.
//
// Each enumeration keeps an `UNDEFINED` fallback variant carrying the
// original wire string, so that a value added by the server after this
// library was written round-trips unchanged instead of failing to parse.
// ---------------------------------------------------------------------------

/// Controls who is able to view a version.
#[derive(Debug)]
pub enum Visibility {
    /// Only the creator can view this application.
    User,
    /// Any member of the organization can view this application.
    Organization,
    /// Anybody, including non logged in users, can view this application.
    Public,
    /// A wire value this library does not know, kept verbatim.
    UNDEFINED(String),
}

/// The declared format of an uploaded specification document.
#[derive(Debug)]
pub enum OriginalType {
    /// The original is in the api.json format.
    ApiJson,
    /// The original is in the swagger.json format.
    SwaggerJson,
    /// The original is in Avro IDL format.
    AvroIdl,
    /// A wire value this library does not know, kept verbatim.
    UNDEFINED(String),
}

/// Something a user can subscribe to.
#[derive(Debug)]
pub enum Publication {
    MembershipRequestsCreate,
    MembershipsCreate,
    ApplicationsCreate,
    VersionsCreate,
    /// A wire value this library does not know, kept verbatim.
    UNDEFINED(String),
}

/// Mathematical value of a `Visibility`.
#[verifier::ext_equal]
pub enum VisibilityV {
    User,
    Organization,
    Public,
    Undefined(Seq<char>),
}

impl VisibilityV {
    /// The wire string this value is written as.
    pub open spec fn wire(self) -> Seq<char> {
        match self {
            VisibilityV::User => "user"@,
            VisibilityV::Organization => "organization"@,
            VisibilityV::Public => "public"@,
            VisibilityV::Undefined(s) => s,
        }
    }
}

impl View for Visibility {
    type V = VisibilityV;

    open spec fn view(&self) -> VisibilityV {
        match *self {
            Visibility::User => VisibilityV::User,
            Visibility::Organization => VisibilityV::Organization,
            Visibility::Public => VisibilityV::Public,
            Visibility::UNDEFINED(s) => VisibilityV::Undefined(s@),
        }
    }
}

/// The visibility a wire string denotes; never fails.
pub open spec fn spec_visibility(s: Seq<char>) -> VisibilityV {
    if s == "user"@ {
        VisibilityV::User
    } else if s == "organization"@ {
        VisibilityV::Organization
    } else if s == "public"@ {
        VisibilityV::Public
    } else {
        VisibilityV::Undefined(s)
    }
}

impl Clone for Visibility {
    fn clone(&self) -> (r: Self)
        ensures
            r@ == self@,
    {
        match self {
            Visibility::User => Visibility::User,
            Visibility::Organization => Visibility::Organization,
            Visibility::Public => Visibility::Public,
            Visibility::UNDEFINED(s) => Visibility::UNDEFINED(s.clone()),
        }
    }
}

impl Visibility {
    /// Accepts every value but the unrecognized fallback, handing the value
    /// back on either side so the caller can render it.
    pub fn valid(&self) -> (r: Result<&Self, &Self>)
        ensures
            r matches Ok(v) && *v == *self <==> !(self@ is Undefined),
            r matches Err(v) && *v == *self <==> self@ is Undefined,
    {
        match self {
            Visibility::UNDEFINED(..) => Err(self),
            _ => Ok(self),
        }
    }

    /// The wire string of this value.
    pub fn encode(&self) -> (r: String)
        ensures
            r@ == self@.wire(),
    {
        match self {
            Visibility::User => String::from_str("user"),
            Visibility::Organization => String::from_str("organization"),
            Visibility::Public => String::from_str("public"),
            Visibility::UNDEFINED(s) => s.clone(),
        }
    }

    /// The value a wire string denotes; an unknown string is kept verbatim.
    pub fn decode(s: &str) -> (r: Visibility)
        ensures
            r@ == spec_visibility(s@),
    {
        if str_eq(s, "user") {
            Visibility::User
        } else if str_eq(s, "organization") {
            Visibility::Organization
        } else if str_eq(s, "public") {
            Visibility::Public
        } else {
            Visibility::UNDEFINED(String::from_str(s))
        }
    }
}

/// Re-encoding a decoded visibility reproduces the wire string exactly, for
/// every wire string: unknown values round-trip through the fallback.
pub proof fn lemma_visibility_encode_decode(s: Seq<char>)
    ensures
        spec_visibility(s).wire() == s,
{
}

/// Decoding the wire string of a visibility gives the value back, as long as
/// an unrecognized value does not spell a reserved word.
pub proof fn lemma_visibility_decode_encode(v: Visibility)
    requires
        v@ matches VisibilityV::Undefined(s) ==> s != "user"@ && s != "organization"@ && s
            != "public"@,
    ensures
        spec_visibility(v@.wire()) == v@,
{
    reveal_strlit("user");
    reveal_strlit("organization");
    reveal_strlit("public");
    assert("user"@.len() == 4);
    assert("organization"@.len() == 12);
    assert("public"@.len() == 6);
    assert("organization"@ != "user"@);
    assert("public"@ != "user"@);
    assert("public"@ != "organization"@);
}

/// Mathematical value of an `OriginalType`.
#[verifier::ext_equal]
pub enum OriginalTypeV {
    ApiJson,
    SwaggerJson,
    AvroIdl,
    Undefined(Seq<char>),
}

impl OriginalTypeV {
    /// The wire string this value is written as.
    pub open spec fn wire(self) -> Seq<char> {
        match self {
            OriginalTypeV::ApiJson => "api_json"@,
            OriginalTypeV::SwaggerJson => "swagger_json"@,
            OriginalTypeV::AvroIdl => "avro_idl"@,
            OriginalTypeV::Undefined(s) => s,
        }
    }
}

impl View for OriginalType {
    type V = OriginalTypeV;

    open spec fn view(&self) -> OriginalTypeV {
        match *self {
            OriginalType::ApiJson => OriginalTypeV::ApiJson,
            OriginalType::SwaggerJson => OriginalTypeV::SwaggerJson,
            OriginalType::AvroIdl => OriginalTypeV::AvroIdl,
            OriginalType::UNDEFINED(s) => OriginalTypeV::Undefined(s@),
        }
    }
}

/// The original type a wire string denotes; never fails.
pub open spec fn spec_original_type(s: Seq<char>) -> OriginalTypeV {
    if s == "api_json"@ {
        OriginalTypeV::ApiJson
    } else if s == "swagger_json"@ {
        OriginalTypeV::SwaggerJson
    } else if s == "avro_idl"@ {
        OriginalTypeV::AvroIdl
    } else {
        OriginalTypeV::Undefined(s)
    }
}

impl OriginalType {
    /// The wire string of this value.
    pub fn encode(&self) -> (r: String)
        ensures
            r@ == self@.wire(),
    {
        match self {
            OriginalType::ApiJson => String::from_str("api_json"),
            OriginalType::SwaggerJson => String::from_str("swagger_json"),
            OriginalType::AvroIdl => String::from_str("avro_idl"),
            OriginalType::UNDEFINED(s) => s.clone(),
        }
    }

    /// The value a wire string denotes; an unknown string is kept verbatim.
    pub fn decode(s: &str) -> (r: OriginalType)
        ensures
            r@ == spec_original_type(s@),
    {
        if str_eq(s, "api_json") {
            OriginalType::ApiJson
        } else if str_eq(s, "swagger_json") {
            OriginalType::SwaggerJson
        } else if str_eq(s, "avro_idl") {
            OriginalType::AvroIdl
        } else {
            OriginalType::UNDEFINED(String::from_str(s))
        }
    }
}

/// Re-encoding a decoded original type reproduces the wire string exactly.
pub proof fn lemma_original_type_encode_decode(s: Seq<char>)
    ensures
        spec_original_type(s).wire() == s,
{
}

/// Decoding the wire string of an original type gives the value back, as
/// long as an unrecognized value does not spell a reserved word.
pub proof fn lemma_original_type_decode_encode(t: OriginalType)
    requires
        t@ matches OriginalTypeV::Undefined(s) ==> s != "api_json"@ && s != "swagger_json"@ && s
            != "avro_idl"@,
    ensures
        spec_original_type(t@.wire()) == t@,
{
    reveal_strlit("api_json");
    reveal_strlit("swagger_json");
    reveal_strlit("avro_idl");
    assert("api_json"@.len() == 8);
    assert("swagger_json"@.len() == 12);
    assert("avro_idl"@.len() == 8);
    assert("swagger_json"@ != "api_json"@);
    assert("avro_idl"@[1] != "api_json"@[1]);
    assert("avro_idl"@ != "api_json"@);
    assert("avro_idl"@ != "swagger_json"@);
}

/// Mathematical value of a `Publication`.
#[verifier::ext_equal]
pub enum PublicationV {
    MembershipRequestsCreate,
    MembershipsCreate,
    ApplicationsCreate,
    VersionsCreate,
    Undefined(Seq<char>),
}

impl PublicationV {
    /// The wire string this value is written as.
    pub open spec fn wire(self) -> Seq<char> {
        match self {
            PublicationV::MembershipRequestsCreate => "membership_requests.create"@,
            PublicationV::MembershipsCreate => "memberships.create"@,
            PublicationV::ApplicationsCreate => "applications.create"@,
            PublicationV::VersionsCreate => "versions.create"@,
            PublicationV::Undefined(s) => s,
        }
    }
}

impl View for Publication {
    type V = PublicationV;

    open spec fn view(&self) -> PublicationV {
        match *self {
            Publication::MembershipRequestsCreate => PublicationV::MembershipRequestsCreate,
            Publication::MembershipsCreate => PublicationV::MembershipsCreate,
            Publication::ApplicationsCreate => PublicationV::ApplicationsCreate,
            Publication::VersionsCreate => PublicationV::VersionsCreate,
            Publication::UNDEFINED(s) => PublicationV::Undefined(s@),
        }
    }
}

/// The publication a wire string denotes; never fails.
pub open spec fn spec_publication(s: Seq<char>) -> PublicationV {
    if s == "membership_requests.create"@ {
        PublicationV::MembershipRequestsCreate
    } else if s == "memberships.create"@ {
        PublicationV::MembershipsCreate
    } else if s == "applications.create"@ {
        PublicationV::ApplicationsCreate
    } else if s == "versions.create"@ {
        PublicationV::VersionsCreate
    } else {
        PublicationV::Undefined(s)
    }
}

impl Publication {
    /// The wire string of this value.
    pub fn encode(&self) -> (r: String)
        ensures
            r@ == self@.wire(),
    {
        match self {
            Publication::MembershipRequestsCreate => String::from_str(
                "membership_requests.create",
            ),
            Publication::MembershipsCreate => String::from_str("memberships.create"),
            Publication::ApplicationsCreate => String::from_str("applications.create"),
            Publication::VersionsCreate => String::from_str("versions.create"),
            Publication::UNDEFINED(s) => s.clone(),
        }
    }

    /// The value a wire string denotes; an unknown string is kept verbatim.
    pub fn decode(s: &str) -> (r: Publication)
        ensures
            r@ == spec_publication(s@),
    {
        if str_eq(s, "membership_requests.create") {
            Publication::MembershipRequestsCreate
        } else if str_eq(s, "memberships.create") {
            Publication::MembershipsCreate
        } else if str_eq(s, "applications.create") {
            Publication::ApplicationsCreate
        } else if str_eq(s, "versions.create") {
            Publication::VersionsCreate
        } else {
            Publication::UNDEFINED(String::from_str(s))
        }
    }
}

/// Re-encoding a decoded publication reproduces the wire string exactly.
pub proof fn lemma_publication_encode_decode(s: Seq<char>)
    ensures
        spec_publication(s).wire() == s,
{
}

/// Decoding the wire string of a publication gives the value back, as long
/// as an unrecognized value does not spell a reserved word.
pub proof fn lemma_publication_decode_encode(p: Publication)
    requires
        p@ matches PublicationV::Undefined(s) ==> s != "membership_requests.create"@ && s
            != "memberships.create"@ && s != "applications.create"@ && s != "versions.create"@,
    ensures
        spec_publication(p@.wire()) == p@,
{
    reveal_strlit("membership_requests.create");
    reveal_strlit("memberships.create");
    reveal_strlit("applications.create");
    reveal_strlit("versions.create");
    assert("membership_requests.create"@.len() == 26);
    assert("memberships.create"@.len() == 18);
    assert("applications.create"@.len() == 19);
    assert("versions.create"@.len() == 15);
    assert("memberships.create"@ != "membership_requests.create"@);
    assert("applications.create"@ != "membership_requests.create"@);
    assert("applications.create"@ != "memberships.create"@);
    assert("versions.create"@ != "membership_requests.create"@);
    assert("versions.create"@ != "memberships.create"@);
    assert("versions.create"@ != "applications.create"@);
}

// ---------------------------------------------------------------------------
// Record shapes.
//
// Identifiers that the service issues (`guid` fields) are carried as their
// wire strings: no command of this client reads them.
// ---------------------------------------------------------------------------

/// An application has a name and multiple versions of its API.
pub struct Application {
    pub guid: String,
    pub organization: Reference,
    pub name: String,
    pub key: String,
    pub visibility: Visibility,
    pub description: Option<String>,
}

pub struct ApplicationForm {
    pub name: String,
    pub key: Option<String>,
    pub description: Option<String>,
    pub visibility: Visibility,
}

/// Separate resource used only for the few actions that require the full
/// token.
pub struct CleartextToken {
    pub token: String,
}

/// Generated source code.
pub struct Code {
    pub generator: Generator,
    pub source: String,
}

/// A single domain name associated with an organization.
pub struct Domain {
    pub name: String,
}

/// Data used to confirm an email address.
pub struct EmailVerificationConfirmationForm {
    pub token: String,
}

/// One error record reported by the service.
pub struct Error {
    pub code: String,
    pub message: String,
}

/// A named code-generation target offered by the service.
pub struct Generator {
    pub guid: String,
    pub key: String,
    pub uri: String,
    pub name: String,
    pub language: Option<String>,
    pub description: Option<String>,
    pub visibility: Visibility,
    pub owner: User,
    pub enabled: bool,
}

/// Form to create a new generator.
pub struct GeneratorCreateForm {
    pub key: String,
    pub uri: String,
    pub visibility: Visibility,
}

/// Form to enable or disable a generator for an organization.
pub struct GeneratorOrgForm {
    pub enabled: bool,
}

/// Form to update a generator.
pub struct GeneratorUpdateForm {
    pub visibility: Option<Visibility>,
    pub enabled: Option<bool>,
}

pub struct Healthcheck {
    pub status: String,
}

/// A user in a specific role to an organization.
pub struct Membership {
    pub guid: String,
    pub user: User,
    pub organization: Organization,
    pub role: String,
}

/// A user requesting to join an organization with a specific role.
pub struct MembershipRequest {
    pub guid: String,
    pub user: User,
    pub organization: Organization,
    pub role: String,
}

/// An organization groups a set of applications together.
pub struct Organization {
    pub guid: String,
    pub key: String,
    pub name: String,
    pub namespace: String,
    pub visibility: Visibility,
    pub domains: Vec<Domain>,
}

pub struct OrganizationForm {
    pub name: String,
    pub key: Option<String>,
    pub namespace: String,
    pub visibility: Option<Visibility>,
    pub domains: Vec<String>,
}

/// The original input used to create an application version.
pub struct Original {
    pub original_type: OriginalType,
    pub data: String,
}

/// The uploaded document and, optionally, its declared format.
pub struct OriginalForm {
    pub original_type: Option<OriginalType>,
    pub data: String,
}

/// Allows a user to change their password with authentication from a token.
pub struct PasswordReset {
    pub token: String,
    pub password: String,
}

/// Creates a password reset request.
pub struct PasswordResetRequest {
    pub email: String,
}

/// Metadata about the user modified by a successful password reset.
pub struct PasswordResetSuccess {
    pub user_guid: String,
}

/// A reference to another model.
pub struct Reference {
    pub guid: String,
    pub key: String,
}

pub struct ReferenceGuid {
    pub guid: String,
}

/// A user currently subscribed to a publication.
pub struct Subscription {
    pub guid: String,
    pub organization: Organization,
    pub user: User,
    pub publication: Publication,
}

pub struct SubscriptionForm {
    pub organization_key: String,
    pub user_guid: String,
    pub publication: Publication,
}

pub struct TokenForm {
    pub user_guid: String,
    pub description: Option<String>,
}

/// A top level person interacting with the service.
pub struct User {
    pub guid: String,
    pub email: String,
    pub nickname: String,
    pub name: Option<String>,
}

pub struct UserForm {
    pub email: String,
    pub password: String,
    pub nickname: Option<String>,
    pub name: Option<String>,
}

pub struct UserUpdateForm {
    pub email: String,
    pub nickname: String,
    pub name: Option<String>,
}

/// The outcome of validating a document: the flag and the reported lines are
/// independent fields of the payload.
pub struct Validation {
    pub valid: bool,
    pub errors: Vec<String>,
}

/// A unique version of an application.
pub struct Version {
    pub guid: String,
    pub organization: Reference,
    pub application: Reference,
    pub version: String,
    pub original: Option<Original>,
}

/// Request body of the publish operation.
pub struct VersionForm {
    pub original_form: OriginalForm,
    pub visibility: Option<Visibility>,
}

/// Users can watch individual applications.
pub struct Watch {
    pub guid: String,
    pub user: User,
    pub organization: Organization,
    pub application: Application,
}

pub struct WatchForm {
    pub user_guid: String,
    pub organization_key: String,
    pub application_key: String,
}

// ---------------------------------------------------------------------------
// Mathematical values of the decoded records.
// ---------------------------------------------------------------------------

#[verifier::ext_equal]
pub struct ErrorV {
    pub code: Seq<char>,
    pub message: Seq<char>,
}

impl View for Error {
    type V = ErrorV;

    open spec fn view(&self) -> ErrorV {
        ErrorV { code: self.code@, message: self.message@ }
    }
}

impl DeepView for Error {
    type V = ErrorV;

    open spec fn deep_view(&self) -> ErrorV {
        self@
    }
}

#[verifier::ext_equal]
pub struct ValidationV {
    pub valid: bool,
    pub errors: Seq<Seq<char>>,
}

impl View for Validation {
    type V = ValidationV;

    open spec fn view(&self) -> ValidationV {
        ValidationV { valid: self.valid, errors: self.errors.deep_view() }
    }
}

#[verifier::ext_equal]
pub struct UserV {
    pub guid: Seq<char>,
    pub email: Seq<char>,
    pub nickname: Seq<char>,
    pub name: Option<Seq<char>>,
}

impl View for User {
    type V = UserV;

    open spec fn view(&self) -> UserV {
        UserV {
            guid: self.guid@,
            email: self.email@,
            nickname: self.nickname@,
            name: self.name.deep_view(),
        }
    }
}

#[verifier::ext_equal]
pub struct GeneratorV {
    pub guid: Seq<char>,
    pub key: Seq<char>,
    pub uri: Seq<char>,
    pub name: Seq<char>,
    pub language: Option<Seq<char>>,
    pub description: Option<Seq<char>>,
    pub visibility: VisibilityV,
    pub owner: UserV,
    pub enabled: bool,
}

impl View for Generator {
    type V = GeneratorV;

    open spec fn view(&self) -> GeneratorV {
        GeneratorV {
            guid: self.guid@,
            key: self.key@,
            uri: self.uri@,
            name: self.name@,
            language: self.language.deep_view(),
            description: self.description.deep_view(),
            visibility: self.visibility@,
            owner: self.owner@,
            enabled: self.enabled,
        }
    }
}

#[verifier::ext_equal]
pub struct CodeV {
    pub generator: GeneratorV,
    pub source: Seq<char>,
}

impl View for Code {
    type V = CodeV;

    open spec fn view(&self) -> CodeV {
        CodeV { generator: self.generator@, source: self.source@ }
    }
}

#[verifier::ext_equal]
pub struct ReferenceV {
    pub guid: Seq<char>,
    pub key: Seq<char>,
}

impl View for Reference {
    type V = ReferenceV;

    open spec fn view(&self) -> ReferenceV {
        ReferenceV { guid: self.guid@, key: self.key@ }
    }
}

#[verifier::ext_equal]
pub struct OriginalV {
    pub original_type: OriginalTypeV,
    pub data: Seq<char>,
}

impl View for Original {
    type V = OriginalV;

    open spec fn view(&self) -> OriginalV {
        OriginalV { original_type: self.original_type@, data: self.data@ }
    }
}

impl DeepView for Original {
    type V = OriginalV;

    open spec fn deep_view(&self) -> OriginalV {
        self@
    }
}

#[verifier::ext_equal]
pub struct VersionV {
    pub guid: Seq<char>,
    pub organization: ReferenceV,
    pub application: ReferenceV,
    pub version: Seq<char>,
    pub original: Option<OriginalV>,
}

impl View for Version {
    type V = VersionV;

    open spec fn view(&self) -> VersionV {
        VersionV {
            guid: self.guid@,
            organization: self.organization@,
            application: self.application@,
            version: self.version@,
            original: self.original.deep_view(),
        }
    }
}

// ---------------------------------------------------------------------------
// Decoding record shapes out of a parsed JSON document.
//
// A record decodes from an object document; a field that the shape requires
// must be present with the right kind, while an optional field may be
// missing or `null`.  Unknown extra fields are ignored.
// ---------------------------------------------------------------------------

/// A required string field of an object document.
pub open spec fn spec_text_field(v: JsonValue, key: Seq<char>) -> Option<Seq<char>> {
    match spec_get(v, key) {
        Some(JsonValue::Text(t)) => Some(t@),
        _ => None,
    }
}

/// An optional string field: missing and `null` both read as absent.
pub open spec fn spec_opt_text_field(v: JsonValue, key: Seq<char>) -> Option<
    Option<Seq<char>>,
> {
    match spec_get(v, key) {
        None => Some(None),
        Some(JsonValue::Null) => Some(None),
        Some(JsonValue::Text(t)) => Some(Some(t@)),
        Some(_) => None,
    }
}

/// A required boolean field of an object document.
pub open spec fn spec_bool_field(v: JsonValue, key: Seq<char>) -> Option<bool> {
    match spec_get(v, key) {
        Some(JsonValue::Bool(b)) => Some(b),
        _ => None,
    }
}

/// A required string field, copied out.
fn text_field(v: &JsonValue, key: &str) -> (r: Option<String>)
    ensures
        match r {
            Some(t) => spec_text_field(*v, key@) == Some(t@),
            None => spec_text_field(*v, key@) is None,
        },
{
    match v.get(key) {
        Some(JsonValue::Text(t)) => Some(t.clone()),
        _ => None,
    }
}

/// An optional string field, copied out.
fn opt_text_field(v: &JsonValue, key: &str) -> (r: Option<Option<String>>)
    ensures
        match r {
            Some(t) => spec_opt_text_field(*v, key@) == Some(t.deep_view()),
            None => spec_opt_text_field(*v, key@) is None,
        },
{
    match v.get(key) {
        None => Some(None),
        Some(JsonValue::Null) => Some(None),
        Some(JsonValue::Text(t)) => Some(Some(t.clone())),
        Some(_) => None,
    }
}

/// A required boolean field.
fn bool_field(v: &JsonValue, key: &str) -> (r: Option<bool>)
    ensures
        match r {
            Some(b) => spec_bool_field(*v, key@) == Some(b),
            None => spec_bool_field(*v, key@) is None,
        },
{
    match v.get(key) {
        Some(JsonValue::Bool(b)) => Some(*b),
        _ => None,
    }
}

/// The error record an object document decodes to, if it fits the shape.
pub open spec fn spec_error(v: JsonValue) -> Option<ErrorV> {
    match (spec_text_field(v, "code"@), spec_text_field(v, "message"@)) {
        (Some(c), Some(m)) => Some(ErrorV { code: c, message: m }),
        _ => None,
    }
}

impl Error {
    /// Decodes one reported error record.
    pub fn from_json(v: &JsonValue) -> (r: Option<Error>)
        ensures
            match r {
                Some(m) => spec_error(*v) == Some(m@),
                None => spec_error(*v) is None,
            },
    {
        let code = match text_field(v, "code") {
            Some(c) => c,
            None => {
                return None;
            },
        };
        let message = match text_field(v, "message") {
            Some(m) => m,
            None => {
                return None;
            },
        };
        Some(Error { code, message })
    }
}

/// The list of error records a document decodes to, if it is a list of
/// well-shaped records.
pub open spec fn spec_errors(v: JsonValue) -> Option<Seq<ErrorV>> {
    match v {
        JsonValue::List(elems) => {
            if forall|i: int| 0 <= i < elems@.len() ==> spec_error(elems@[i]) is Some {
                Some(Seq::new(elems@.len(), |i: int| spec_error(elems@[i]).unwrap()))
            } else {
                None
            }
        },
        _ => None,
    }
}

/// Decodes the failure payload: a list of error records.
pub fn errors_from_json(v: &JsonValue) -> (r: Option<Vec<Error>>)
    ensures
        match r {
            Some(list) => spec_errors(*v) == Some(list.deep_view()),
            None => spec_errors(*v) is None,
        },
{
    match v {
        JsonValue::List(elems) => {
            let mut out: Vec<Error> = Vec::new();
            let mut i: usize = 0;
            while i < elems.len()
                invariant
                    (*v) is List,
                    *elems == (*v)->List_0,
                    i <= elems@.len(),
                    out@.len() == i,
                    forall|j: int| 0 <= j < i ==> spec_error(elems@[j]) is Some,
                    forall|j: int| 0 <= j < i ==> out@[j]@ == spec_error(elems@[j]).unwrap(),
                decreases elems@.len() - i,
            {
                match Error::from_json(&elems[i]) {
                    Some(e) => {
                        out.push(e);
                    },
                    None => {
                        return None;
                    },
                }
                i += 1;
            }
            proof {
                assert forall|j: int| 0 <= j < elems@.len() implies out.deep_view()[j]
                    == spec_error(elems@[j]).unwrap() by {
                    assert(out.deep_view()[j] == out@[j]@);
                }
                assert(out.deep_view() =~= Seq::new(
                    elems@.len(),
                    |i: int| spec_error(elems@[i]).unwrap(),
                ));
            }
            Some(out)
        },
        _ => None,
    }
}

/// The validation outcome an object document decodes to: the flag and the
/// error lines are independent required fields.
pub open spec fn spec_validation(v: JsonValue) -> Option<ValidationV> {
    match (spec_bool_field(v, "valid"@), spec_get(v, "errors"@)) {
        (Some(b), Some(JsonValue::List(elems))) => match crate::json::texts_of(elems@) {
            Some(es) => Some(ValidationV { valid: b, errors: es }),
            None => None,
        },
        _ => None,
    }
}

impl Validation {
    /// Decodes the success payload of the validation operation.
    pub fn from_json(v: &JsonValue) -> (r: Option<Validation>)
        ensures
            match r {
                Some(m) => spec_validation(*v) == Some(m@),
                None => spec_validation(*v) is None,
            },
    {
        let valid = match bool_field(v, "valid") {
            Some(b) => b,
            None => {
                return None;
            },
        };
        match v.get("errors") {
            Some(JsonValue::List(elems)) => match crate::json::decode_texts(elems) {
                Some(errors) => Some(Validation { valid, errors }),
                None => None,
            },
            _ => None,
        }
    }
}

/// The user record an object document decodes to.
pub open spec fn spec_user(v: JsonValue) -> Option<UserV> {
    match (
        spec_text_field(v, "guid"@),
        spec_text_field(v, "email"@),
        spec_text_field(v, "nickname"@),
        spec_opt_text_field(v, "name"@),
    ) {
        (Some(g), Some(e), Some(n), Some(nm)) => Some(
            UserV { guid: g, email: e, nickname: n, name: nm },
        ),
        _ => None,
    }
}

impl User {
    /// Decodes a user record.
    pub fn from_json(v: &JsonValue) -> (r: Option<User>)
        ensures
            match r {
                Some(m) => spec_user(*v) == Some(m@),
                None => spec_user(*v) is None,
            },
    {
        let guid = match text_field(v, "guid") {
            Some(x) => x,
            None => {
                return None;
            },
        };
        let email = match text_field(v, "email") {
            Some(x) => x,
            None => {
                return None;
            },
        };
        let nickname = match text_field(v, "nickname") {
            Some(x) => x,
            None => {
                return None;
            },
        };
        let name = match opt_text_field(v, "name") {
            Some(x) => x,
            None => {
                return None;
            },
        };
        Some(User { guid, email, nickname, name })
    }
}

/// Whether an object document carries every field of a generator record.
pub open spec fn generator_wf(v: JsonValue) -> bool {
    &&& spec_text_field(v, "guid"@) is Some
    &&& spec_text_field(v, "key"@) is Some
    &&& spec_text_field(v, "uri"@) is Some
    &&& spec_text_field(v, "name"@) is Some
    &&& spec_opt_text_field(v, "language"@) is Some
    &&& spec_opt_text_field(v, "description"@) is Some
    &&& spec_text_field(v, "visibility"@) is Some
    &&& spec_get(v, "owner"@) is Some
    &&& spec_user(spec_get(v, "owner"@).unwrap()) is Some
    &&& spec_bool_field(v, "enabled"@) is Some
}

/// The generator record an object document decodes to.
pub open spec fn spec_generator(v: JsonValue) -> Option<GeneratorV> {
    if generator_wf(v) {
        Some(
            GeneratorV {
                guid: spec_text_field(v, "guid"@).unwrap(),
                key: spec_text_field(v, "key"@).unwrap(),
                uri: spec_text_field(v, "uri"@).unwrap(),
                name: spec_text_field(v, "name"@).unwrap(),
                language: spec_opt_text_field(v, "language"@).unwrap(),
                description: spec_opt_text_field(v, "description"@).unwrap(),
                visibility: spec_visibility(spec_text_field(v, "visibility"@).unwrap()),
                owner: spec_user(spec_get(v, "owner"@).unwrap()).unwrap(),
                enabled: spec_bool_field(v, "enabled"@).unwrap(),
            },
        )
    } else {
        None
    }
}

impl Generator {
    /// Decodes a generator record.
    pub fn from_json(v: &JsonValue) -> (r: Option<Generator>)
        ensures
            match r {
                Some(m) => spec_generator(*v) == Some(m@),
                None => spec_generator(*v) is None,
            },
    {
        let guid = match text_field(v, "guid") {
            Some(x) => x,
            None => {
                return None;
            },
        };
        let key = match text_field(v, "key") {
            Some(x) => x,
            None => {
                return None;
            },
        };
        let uri = match text_field(v, "uri") {
            Some(x) => x,
            None => {
                return None;
            },
        };
        let name = match text_field(v, "name") {
            Some(x) => x,
            None => {
                return None;
            },
        };
        let language = match opt_text_field(v, "language") {
            Some(x) => x,
            None => {
                return None;
            },
        };
        let description = match opt_text_field(v, "description") {
            Some(x) => x,
            None => {
                return None;
            },
        };
        let visibility = match text_field(v, "visibility") {
            Some(x) => Visibility::decode(x.as_str()),
            None => {
                return None;
            },
        };
        let owner = match v.get("owner") {
            Some(o) => match User::from_json(o) {
                Some(u) => u,
                None => {
                    return None;
                },
            },
            None => {
                return None;
            },
        };
        let enabled = match bool_field(v, "enabled") {
            Some(x) => x,
            None => {
                return None;
            },
        };
        Some(
            Generator {
                guid,
                key,
                uri,
                name,
                language,
                description,
                visibility,
                owner,
                enabled,
            },
        )
    }
}

/// The generated-code record an object document decodes to.
pub open spec fn spec_code(v: JsonValue) -> Option<CodeV> {
    match (spec_get(v, "generator"@), spec_text_field(v, "source"@)) {
        (Some(g), Some(s)) => match spec_generator(g) {
            Some(generator) => Some(CodeV { generator, source: s }),
            None => None,
        },
        _ => None,
    }
}

impl Code {
    /// Decodes the success payload of the generate operation.
    pub fn from_json(v: &JsonValue) -> (r: Option<Code>)
        ensures
            match r {
                Some(m) => spec_code(*v) == Some(m@),
                None => spec_code(*v) is None,
            },
    {
        let generator = match v.get("generator") {
            Some(g) => match Generator::from_json(g) {
                Some(gen) => gen,
                None => {
                    return None;
                },
            },
            None => {
                return None;
            },
        };
        let source = match text_field(v, "source") {
            Some(s) => s,
            None => {
                return None;
            },
        };
        Some(Code { generator, source })
    }
}

/// The reference record an object document decodes to.
pub open spec fn spec_reference(v: JsonValue) -> Option<ReferenceV> {
    match (spec_text_field(v, "guid"@), spec_text_field(v, "key"@)) {
        (Some(g), Some(k)) => Some(ReferenceV { guid: g, key: k }),
        _ => None,
    }
}

impl Reference {
    /// Decodes a reference record.
    pub fn from_json(v: &JsonValue) -> (r: Option<Reference>)
        ensures
            match r {
                Some(m) => spec_reference(*v) == Some(m@),
                None => spec_reference(*v) is None,
            },
    {
        let guid = match text_field(v, "guid") {
            Some(x) => x,
            None => {
                return None;
            },
        };
        let key = match text_field(v, "key") {
            Some(x) => x,
            None => {
                return None;
            },
        };
        Some(Reference { guid, key })
    }
}

/// The original record an object document decodes to; its field on the wire
/// is named `type`.
pub open spec fn spec_original(v: JsonValue) -> Option<OriginalV> {
    match (spec_text_field(v, "type"@), spec_text_field(v, "data"@)) {
        (Some(t), Some(d)) => Some(
            OriginalV { original_type: spec_original_type(t), data: d },
        ),
        _ => None,
    }
}

impl Original {
    /// Decodes an original record.
    pub fn from_json(v: &JsonValue) -> (r: Option<Original>)
        ensures
            match r {
                Some(m) => spec_original(*v) == Some(m@),
                None => spec_original(*v) is None,
            },
    {
        let original_type = match text_field(v, "type") {
            Some(t) => OriginalType::decode(t.as_str()),
            None => {
                return None;
            },
        };
        let data = match text_field(v, "data") {
            Some(d) => d,
            None => {
                return None;
            },
        };
        Some(Original { original_type, data })
    }
}

/// The original-form record an object document decodes to: the declared
/// format is optional where the original record requires it.
pub open spec fn spec_original_form(v: JsonValue) -> Option<(Option<OriginalTypeV>, Seq<char>)> {
    match (spec_opt_text_field(v, "type"@), spec_text_field(v, "data"@)) {
        (Some(t), Some(d)) => Some(
            (
                match t {
                    None => None,
                    Some(w) => Some(spec_original_type(w)),
                },
                d,
            ),
        ),
        _ => None,
    }
}

impl OriginalForm {
    /// Decodes an original-form record.
    pub fn from_json(v: &JsonValue) -> (r: Option<OriginalForm>)
        ensures
            match r {
                Some(m) => spec_original_form(*v) == Some(
                    (
                        match m.original_type {
                            None => None,
                            Some(t) => Some(t@),
                        },
                        m.data@,
                    ),
                ),
                None => spec_original_form(*v) is None,
            },
    {
        let original_type = match opt_text_field(v, "type") {
            Some(None) => None,
            Some(Some(t)) => Some(OriginalType::decode(t.as_str())),
            None => {
                return None;
            },
        };
        let data = match text_field(v, "data") {
            Some(d) => d,
            None => {
                return None;
            },
        };
        Some(OriginalForm { original_type, data })
    }
}

/// An optional nested original record: missing and `null` read as absent.
pub open spec fn spec_opt_original_field(v: JsonValue, key: Seq<char>) -> Option<
    Option<OriginalV>,
> {
    match spec_get(v, key) {
        None => Some(None),
        Some(JsonValue::Null) => Some(None),
        Some(o) => match spec_original(o) {
            Some(ov) => Some(Some(ov)),
            None => None,
        },
    }
}

/// Whether an object document carries every field of a version record.
pub open spec fn version_wf(v: JsonValue) -> bool {
    &&& spec_text_field(v, "guid"@) is Some
    &&& spec_get(v, "organization"@) is Some
    &&& spec_reference(spec_get(v, "organization"@).unwrap()) is Some
    &&& spec_get(v, "application"@) is Some
    &&& spec_reference(spec_get(v, "application"@).unwrap()) is Some
    &&& spec_text_field(v, "version"@) is Some
    &&& spec_opt_original_field(v, "original"@) is Some
}

/// The version record an object document decodes to.
pub open spec fn spec_version(v: JsonValue) -> Option<VersionV> {
    if version_wf(v) {
        Some(
            VersionV {
                guid: spec_text_field(v, "guid"@).unwrap(),
                organization: spec_reference(spec_get(v, "organization"@).unwrap()).unwrap(),
                application: spec_reference(spec_get(v, "application"@).unwrap()).unwrap(),
                version: spec_text_field(v, "version"@).unwrap(),
                original: spec_opt_original_field(v, "original"@).unwrap(),
            },
        )
    } else {
        None
    }
}

impl Version {
    /// Decodes the success payload of the publish operation.
    pub fn from_json(v: &JsonValue) -> (r: Option<Version>)
        ensures
            match r {
                Some(m) => spec_version(*v) == Some(m@),
                None => spec_version(*v) is None,
            },
    {
        let guid = match text_field(v, "guid") {
            Some(x) => x,
            None => {
                return None;
            },
        };
        let organization = match v.get("organization") {
            Some(o) => match Reference::from_json(o) {
                Some(rf) => rf,
                None => {
                    return None;
                },
            },
            None => {
                return None;
            },
        };
        let application = match v.get("application") {
            Some(a) => match Reference::from_json(a) {
                Some(rf) => rf,
                None => {
                    return None;
                },
            },
            None => {
                return None;
            },
        };
        let version = match text_field(v, "version") {
            Some(x) => x,
            None => {
                return None;
            },
        };
        let original = match v.get("original") {
            None => None,
            Some(JsonValue::Null) => None,
            Some(o) => match Original::from_json(o) {
                Some(og) => Some(og),
                None => {
                    return None;
                },
            },
        };
        Some(Version { guid, organization, application, version, original })
    }
}

// ---------------------------------------------------------------------------
// Encoding the publish request body.
//
// The body is written compactly, fields in declaration order, an absent
// optional value as `null`, and an enumeration as its wire string.
// ---------------------------------------------------------------------------

/// An optional original type as a JSON value.
pub open spec fn spec_opt_type_json(t: Option<OriginalType>) -> Seq<char> {
    match t {
        None => "null"@,
        Some(ot) => crate::json::spec_json_string(ot@.wire()),
    }
}

/// An optional visibility as a JSON value.
pub open spec fn spec_opt_visibility_json(v: Option<Visibility>) -> Seq<char> {
    match v {
        None => "null"@,
        Some(vis) => crate::json::spec_json_string(vis@.wire()),
    }
}

/// The JSON object an original record is written as; unlike the form, its
/// declared format is always present.
pub open spec fn spec_original_json(o: Original) -> Seq<char> {
    "{\"type\":"@ + crate::json::spec_json_string(o.original_type@.wire()) + ",\"data\":"@
        + crate::json::spec_json_string(o.data@) + "}"@
}

impl Original {
    /// Appends this record as a JSON object.
    pub fn write_json(&self, out: &mut String)
        ensures
            final(out)@ == old(out)@ + spec_original_json(*self),
    {
        out.append("{\"type\":");
        let w = self.original_type.encode();
        crate::json::write_json_string(out, w.as_str());
        out.append(",\"data\":");
        crate::json::write_json_string(out, self.data.as_str());
        out.append("}");
        assert(out@ =~= old(out)@ + spec_original_json(*self));
    }
}

/// The JSON object an original form is written as.
pub open spec fn spec_original_form_json(f: OriginalForm) -> Seq<char> {
    "{\"type\":"@ + spec_opt_type_json(f.original_type) + ",\"data\":"@
        + crate::json::spec_json_string(f.data@) + "}"@
}

/// The JSON object a version form is written as.
pub open spec fn spec_version_form_json(f: VersionForm) -> Seq<char> {
    "{\"original_form\":"@ + spec_original_form_json(f.original_form) + ",\"visibility\":"@
        + spec_opt_visibility_json(f.visibility) + "}"@
}

impl OriginalForm {
    /// Appends this form as a JSON object.
    pub fn write_json(&self, out: &mut String)
        ensures
            final(out)@ == old(out)@ + spec_original_form_json(*self),
    {
        out.append("{\"type\":");
        match &self.original_type {
            None => out.append("null"),
            Some(t) => {
                let w = t.encode();
                crate::json::write_json_string(out, w.as_str());
            },
        }
        out.append(",\"data\":");
        crate::json::write_json_string(out, self.data.as_str());
        out.append("}");
        assert(out@ =~= old(out)@ + spec_original_form_json(*self));
    }
}

impl VersionForm {
    /// The publish request body: this form as one compact JSON document.
    pub fn to_json(&self) -> (r: String)
        ensures
            r@ == spec_version_form_json(*self),
    {
        let mut out = String::new();
        out.append("{\"original_form\":");
        self.original_form.write_json(&mut out);
        out.append(",\"visibility\":");
        match &self.visibility {
            None => out.append("null"),
            Some(v) => {
                let w = v.encode();
                crate::json::write_json_string(&mut out, w.as_str());
            },
        }
        out.append("}");
        assert(out@ =~= spec_version_form_json(*self));
        out
    }
}

} // verus!
