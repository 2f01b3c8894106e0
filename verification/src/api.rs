//! The three interfaces of the service and what each operation decides
//! before anything is stored: whether the bearer may perform it, and under
//! which agent name a change is recorded.

use vstd::prelude::*;
use vstd::string::StringExecFns;
use crate::claims::{Claims, ClaimsView};
use crate::decimal::{decimal, push_decimal};
use crate::dto::optional_text;
use crate::error::{ApplicationError, GrantError, UserError};
use crate::grants::{required_names, Grants, HasGrants};
use crate::hasher::HasherError;
use crate::manage::ModifyGrantPayload;
use crate::services::ApiServicesError;
use crate::text::push_char;
use crate::token::{issued_token, Jwt, JwtError};

verus! {

/// An error as it is reported to the caller: a message and nothing else.
#[derive(Clone, Debug, PartialEq, Eq)]
pub struct ApiError {
    message: String,
}

impl ApiError {
    /// The message of this error.
    pub closed spec fn text(&self) -> Seq<char> {
        self.message@
    }

    /// An error with the given message.
    pub fn new(message: String) -> (error: ApiError)
        ensures
            error.text() == message@,
    {
        ApiError { message }
    }

    /// The message of this error.
    pub fn message(&self) -> (text: &str)
        ensures
            text@ == self.text(),
    {
        self.message.as_str()
    }

    /// The error reported for a failed operation on users: its text.
    pub fn from_user_error(error: &UserError) -> (reported: ApiError)
        ensures
            reported.text() == error.message_text(),
    {
        ApiError { message: error.message() }
    }

    /// The error reported for a failed operation on grants: its text.
    pub fn from_grant_error(error: &GrantError) -> (reported: ApiError)
        ensures
            reported.text() == error.message_text(),
    {
        ApiError { message: error.message() }
    }

    /// The error reported for a failed operation on applications: its text.
    pub fn from_application_error(error: &ApplicationError) -> (reported: ApiError)
        ensures
            reported.text() == error.message_text(),
    {
        ApiError { message: error.message() }
    }

    /// The error reported for a failure of the token signer: its text.
    pub fn from_jwt_error(error: &JwtError) -> (reported: ApiError)
        ensures
            reported.text() == error.message_text(),
    {
        ApiError { message: error.message() }
    }

    /// The error reported for a failure of the password hasher: its text.
    pub fn from_hasher_error(error: &HasherError) -> (reported: ApiError)
        ensures
            reported.text() == error.message_text(),
    {
        ApiError { message: error.message() }
    }

    /// The error reported for a failure to make the services: its text.
    pub fn from_services_error(error: &ApiServicesError) -> (reported: ApiError)
        ensures
            reported.text() == error.message_text(),
    {
        ApiError { message: error.message() }
    }
}

/// The agent name of an operation performed by a user: the operation, a
/// colon, and the user's identifier in decimal.
pub open spec fn agent_name(operation: Seq<char>, user_id: i32) -> Seq<char> {
    operation + seq![':'] + decimal(user_id as int)
}

/// The agent name of the operation `operation` performed by `user_id`.
pub fn agent_for(operation: &str, user_id: i32) -> (agent: String)
    ensures
        agent@ == agent_name(operation@, user_id),
{
    let mut agent = operation.to_owned();
    push_char(&mut agent, ':');
    push_decimal(&mut agent, user_id);
    agent
}

/// Whether a bearer of `claims` holds `grant`.
pub open spec fn holds(claims: Claims, grant: Grants) -> bool {
    claims@.grants.contains(grant.identifier())
}

/// Whether `claims` hold `grant`.
pub fn authorize(claims: &Claims, grant: Grants) -> (allowed: bool)
    ensures
        allowed == holds(*claims, grant),
{
    let required = [grant];
    let allowed = claims.has_grants(required.as_slice());
    proof {
        let names = required_names(required@);
        assert(names.len() == 1 && names[0] == grant.identifier());
        if allowed {
            assert(claims.held().contains(names[0]));
        } else {
            if claims@.grants.contains(grant.identifier()) {
                assert(claims.held().contains(grant.identifier()));
                assert forall|i: int| 0 <= i < names.len() implies claims.held().contains(#[trigger] names[i]) by {}
            }
        }
    }
    allowed
}

/// The operations of the service itself.
pub struct Api;

/// The operations that manage users, applications and grants. Each checks the
/// one grant that it requires; those that change something also name the
/// agent under which the change is recorded.
pub struct ManageApi;

/// The operations for debugging.
pub struct DebugApi;

/// The groups into which the management operations fall.
#[derive(Clone, Copy, Debug, PartialEq, Eq)]
pub enum ManageTags {
    User,
    Application,
    Grant,
}

/// What an interface is called and where it is mounted.
pub trait SwaggerApi {
    /// The path under which the interface is mounted.
    spec fn base_uri_text() -> Seq<char>;

    /// The name of the interface.
    spec fn name_text() -> Seq<char>;

    /// The path under which the interface is mounted.
    fn base_uri() -> (uri: String)
        ensures
            uri@ == Self::base_uri_text(),
    ;

    /// The name of the interface.
    fn name() -> (name: String)
        ensures
            name@ == Self::name_text(),
    ;
}

impl SwaggerApi for Api {
    open spec fn base_uri_text() -> Seq<char> {
        "/"@
    }

    open spec fn name_text() -> Seq<char> {
        "Auth API"@
    }

    fn base_uri() -> (uri: String) {
        "/".to_owned()
    }

    fn name() -> (name: String) {
        "Auth API".to_owned()
    }
}

impl SwaggerApi for ManageApi {
    open spec fn base_uri_text() -> Seq<char> {
        "/manage"@
    }

    open spec fn name_text() -> Seq<char> {
        "Auth Management API"@
    }

    fn base_uri() -> (uri: String) {
        "/manage".to_owned()
    }

    fn name() -> (name: String) {
        "Auth Management API".to_owned()
    }
}

impl SwaggerApi for DebugApi {
    open spec fn base_uri_text() -> Seq<char> {
        "/debug"@
    }

    open spec fn name_text() -> Seq<char> {
        "Debug API"@
    }

    fn base_uri() -> (uri: String) {
        "/debug".to_owned()
    }

    fn name() -> (name: String) {
        "Debug API".to_owned()
    }
}

/// The agent of an operation that the bearer may perform, and `None` where the
/// bearer lacks the grant.
pub open spec fn permitted_agent(claims: Claims, grant: Grants, operation: Seq<char>) -> Option<
    Seq<char>,
> {
    if holds(claims, grant) {
        Some(agent_name(operation, claims.user_id))
    } else {
        None
    }
}

/// The agent of `operation` where `claims` hold `grant`.
fn agent_if_allowed(claims: &Claims, grant: Grants, operation: &str) -> (agent: Option<String>)
    ensures
        optional_text(agent) == permitted_agent(*claims, grant, operation@),
{
    if authorize(claims, grant) {
        Some(agent_for(operation, claims.user_id))
    } else {
        None
    }
}

impl ManageApi {
    /// Creating a user requires `UserCreate`; the agent is `user.create:` and
    /// the bearer's identifier.
    pub fn user_create(claims: &Claims) -> (agent: Option<String>)
        ensures
            optional_text(agent) == permitted_agent(*claims, Grants::UserCreate, "user.create"@),
    {
        agent_if_allowed(claims, Grants::UserCreate, "user.create")
    }

    /// Deleting a user requires `UserDelete`.
    pub fn user_delete(claims: &Claims) -> (allowed: bool)
        ensures
            allowed == holds(*claims, Grants::UserDelete),
    {
        authorize(claims, Grants::UserDelete)
    }

    /// Listing the users requires `UserList`.
    pub fn user_list(claims: &Claims) -> (allowed: bool)
        ensures
            allowed == holds(*claims, Grants::UserList),
    {
        authorize(claims, Grants::UserList)
    }

    /// Reading a user requires `UserGet`.
    pub fn user_get(claims: &Claims) -> (allowed: bool)
        ensures
            allowed == holds(*claims, Grants::UserGet),
    {
        authorize(claims, Grants::UserGet)
    }

    /// Setting a grant of a user requires `UserGrantUpdate`; the agent is
    /// `user.modify_grant:`, the bearer's identifier, a colon and the grant.
    pub fn user_update_grant(claims: &Claims, payload: &ModifyGrantPayload) -> (agent: Option<String>)
        ensures
            optional_text(agent) == match permitted_agent(
                *claims,
                Grants::UserGrantUpdate,
                "user.modify_grant"@,
            ) {
                Some(agent) => Some(agent + seq![':'] + payload.grant_id@),
                None => None,
            },
    {
        match agent_if_allowed(claims, Grants::UserGrantUpdate, "user.modify_grant") {
            Some(agent) => {
                let mut agent = agent;
                push_char(&mut agent, ':');
                Some(agent.concat(payload.grant_id.as_str()))
            },
            None => None,
        }
    }

    /// Creating an application requires `ApplicationCreate`; the agent is
    /// `application.create:` and the bearer's identifier.
    pub fn create_application(claims: &Claims) -> (agent: Option<String>)
        ensures
            optional_text(agent) == permitted_agent(
                *claims,
                Grants::ApplicationCreate,
                "application.create"@,
            ),
    {
        agent_if_allowed(claims, Grants::ApplicationCreate, "application.create")
    }

    /// Reading an application requires `ApplicationGet`.
    pub fn get_application(claims: &Claims) -> (allowed: bool)
        ensures
            allowed == holds(*claims, Grants::ApplicationGet),
    {
        authorize(claims, Grants::ApplicationGet)
    }

    /// Listing the applications requires `ApplicationList`.
    pub fn list_applications(claims: &Claims) -> (allowed: bool)
        ensures
            allowed == holds(*claims, Grants::ApplicationList),
    {
        authorize(claims, Grants::ApplicationList)
    }

    /// Changing an application requires `ApplicationUpdate`; the agent is
    /// `application.update:` and the bearer's identifier.
    pub fn update_application(claims: &Claims) -> (agent: Option<String>)
        ensures
            optional_text(agent) == permitted_agent(
                *claims,
                Grants::ApplicationUpdate,
                "application.update"@,
            ),
    {
        agent_if_allowed(claims, Grants::ApplicationUpdate, "application.update")
    }

    /// Reading the grants of an application requires `ApplicationGetGrants`.
    pub fn get_grants_by_application_id(claims: &Claims) -> (allowed: bool)
        ensures
            allowed == holds(*claims, Grants::ApplicationGetGrants),
    {
        authorize(claims, Grants::ApplicationGetGrants)
    }

    /// Creating a grant requires `GrantCreate`; the agent is `grant.create:`
    /// and the bearer's identifier.
    pub fn create_grant(claims: &Claims) -> (agent: Option<String>)
        ensures
            optional_text(agent) == permitted_agent(*claims, Grants::GrantCreate, "grant.create"@),
    {
        agent_if_allowed(claims, Grants::GrantCreate, "grant.create")
    }

    /// Reading a grant requires `GrantGet`.
    pub fn get_grant_by_id(claims: &Claims) -> (allowed: bool)
        ensures
            allowed == holds(*claims, Grants::GrantGet),
    {
        authorize(claims, Grants::GrantGet)
    }
}

/// How long a token for debugging is valid, in seconds: 30 minutes.
pub const DEBUG_TOKEN_TTL: u64 = 1800;

/// The grants that a token for debugging claims, in order.
pub open spec fn debug_grants() -> Seq<Seq<char>> {
    seq![
        Grants::UserCreate.identifier(),
        Grants::UserDelete.identifier(),
        Grants::UserList.identifier(),
        Grants::UserGet.identifier(),
        Grants::UserGrantUpdate.identifier(),
        Grants::ApplicationCreate.identifier(),
        Grants::ApplicationGet.identifier(),
        Grants::ApplicationList.identifier(),
        Grants::ApplicationList.identifier(),
        Grants::ApplicationGetGrants.identifier(),
        Grants::GrantCreate.identifier(),
        Grants::GrantGet.identifier(),
    ]
}

/// The claims of a token for debugging issued at `now`. Their issuer is not
/// this service, so no operation accepts them.
pub open spec fn debug_claims(now: u64) -> ClaimsView {
    ClaimsView {
        user_id: 1,
        issuer: "ME!"@,
        grants: debug_grants(),
        apps: Seq::empty(),
        issued_at: now,
        expires: (now + DEBUG_TOKEN_TTL) as u64,
    }
}

impl DebugApi {
    /// The claims of a token for debugging issued at `now`.
    pub fn claims_at(now: u64) -> (claims: Claims)
        requires
            now + DEBUG_TOKEN_TTL <= u64::MAX,
        ensures
            claims@ == debug_claims(now),
    {
        let mut grants: Vec<String> = Vec::new();
        grants.push(Grants::UserCreate.as_str().to_owned());
        grants.push(Grants::UserDelete.as_str().to_owned());
        grants.push(Grants::UserList.as_str().to_owned());
        grants.push(Grants::UserGet.as_str().to_owned());
        grants.push(Grants::UserGrantUpdate.as_str().to_owned());
        grants.push(Grants::ApplicationCreate.as_str().to_owned());
        grants.push(Grants::ApplicationGet.as_str().to_owned());
        grants.push(Grants::ApplicationList.as_str().to_owned());
        grants.push(Grants::ApplicationList.as_str().to_owned());
        grants.push(Grants::ApplicationGetGrants.as_str().to_owned());
        grants.push(Grants::GrantCreate.as_str().to_owned());
        grants.push(Grants::GrantGet.as_str().to_owned());
        let claims = Claims {
            user_id: 1,
            issuer: "ME!".to_owned(),
            grants,
            apps: Vec::new(),
            issued_at: now,
            expires: now + DEBUG_TOKEN_TTL,
        };
        assert(claims@.grants =~= debug_grants());
        assert(claims@.apps =~= Seq::<Seq<char>>::empty());
        claims
    }

    /// A signed token for debugging, issued at `now`.
    pub fn create_jwt(jwt: &Jwt, now: u64) -> (signed: Result<String, JwtError>)
        requires
            now + DEBUG_TOKEN_TTL <= u64::MAX,
        ensures
            match issued_token(jwt.secret(), debug_claims(now)) {
                Some(token) => signed matches Ok(text) && text@ == token,
                None => signed matches Err(JwtError::Sign { .. }),
            },
    {
        jwt.sign(&Self::claims_at(now))
    }
}

} // verus!
