//! The requests that manage users, applications and grants, and what is
//! prepared from each before it reaches the store.

use vstd::prelude::*;
use vstd::string::StrSliceExecFns;
use crate::api::ApiError;
use crate::assignment::{after_set_grant, has_user, touched, GrantAssignmentStore};
use crate::clock::Timestamp;
use crate::dto::{optional_str, optional_text, replaced, ApplicationDto, ApplicationView};
use crate::error::{ApplicationError, UserError};
use crate::hasher::{password_hash_of, HasherError};
use crate::services::ApiServices;

verus! {

/// Whether a string has at least `least` characters.
pub fn has_min_length(text: &str, least: usize) -> (long_enough: bool)
    ensures
        long_enough == (text@.len() >= least),
{
    text.unicode_len() >= least
}

/// The request to create a user.
#[derive(Clone, Debug, PartialEq, Eq)]
pub struct CreateUserPayload {
    pub username: String,
    pub password: String,
    pub display_name: Option<String>,
    pub email: Option<String>,
    pub image_url: Option<String>,
}

/// The request to set one grant of one user.
#[derive(Clone, Debug, PartialEq, Eq)]
pub struct ModifyGrantPayload {
    pub user_id: i32,
    pub grant_id: String,
    pub enabled: bool,
}

/// The request to create an application.
#[derive(Clone, Debug, PartialEq, Eq)]
pub struct CreateApplicationPayload {
    pub application_id: String,
    pub display_name: Option<String>,
    pub description: String,
}

/// The request to change an application.
#[derive(Clone, Debug, PartialEq, Eq)]
pub struct UpdateApplicationPayload {
    pub application_id: String,
    pub display_name: Option<String>,
    pub description: Option<String>,
}

/// The request to create a grant.
#[derive(Clone, Debug, PartialEq, Eq)]
pub struct CreateGrantPayload {
    pub grant_id: String,
    pub application_id: String,
    pub display_name: Option<String>,
    pub description: String,
}

impl CreateUserPayload {
    /// Whether the request is well formed: a user name of at least 3
    /// characters and a password of at least 8.
    pub fn is_valid(&self) -> (valid: bool)
        ensures
            valid == (self.username@.len() >= 3 && self.password@.len() >= 8),
    {
        has_min_length(self.username.as_str(), 3) && has_min_length(self.password.as_str(), 8)
    }
}

impl CreateApplicationPayload {
    /// Whether the request is well formed: an identifier of at least 3
    /// characters.
    pub fn is_valid(&self) -> (valid: bool)
        ensures
            valid == (self.application_id@.len() >= 3),
    {
        has_min_length(self.application_id.as_str(), 3)
    }
}

impl CreateGrantPayload {
    /// Whether the request is well formed: identifiers of at least 3
    /// characters for the grant and for its application.
    pub fn is_valid(&self) -> (valid: bool)
        ensures
            valid == (self.grant_id@.len() >= 3 && self.application_id@.len() >= 3),
    {
        has_min_length(self.grant_id.as_str(), 3) && has_min_length(self.application_id.as_str(), 3)
    }
}

/// A user as it is stored when it is created: the request with the password
/// replaced by its hash, and the agent that creates it.
#[derive(Clone, Debug, PartialEq, Eq)]
pub struct NewUser {
    pub agent: String,
    pub username: String,
    pub password: String,
    pub display_name: Option<String>,
    pub email: Option<String>,
    pub image_url: Option<String>,
}

/// An application as it is stored when it is created.
#[derive(Clone, Debug, PartialEq, Eq)]
pub struct NewApplication {
    pub agent: String,
    pub application_id: String,
    pub display_name: String,
    pub description: String,
}

/// A grant as it is stored when it is created.
#[derive(Clone, Debug, PartialEq, Eq)]
pub struct NewGrant {
    pub agent: String,
    pub grant_id: String,
    pub application_id: String,
    pub display_name: String,
    pub description: String,
}

/// Prepares the creation of a user: the password is hashed under the
/// service's salt, and nothing else of the request changes. A password that
/// cannot be hashed ends the creation, with the text of the hasher's error.
pub fn create_user(services: &ApiServices, payload: CreateUserPayload, agent: &str) -> (prepared: Result<
    NewUser,
    ApiError,
>)
    ensures
        match password_hash_of(payload.password@, services.hasher.salt()) {
            Some(hash) => prepared matches Ok(user) && {
                &&& user.agent@ == agent@
                &&& user.username == payload.username
                &&& user.password@ == hash
                &&& user.display_name == payload.display_name
                &&& user.email == payload.email
                &&& user.image_url == payload.image_url
            },
            None => prepared matches Err(error) && exists|cause: HasherError|
                error.text() == #[trigger] cause.message_text(),
        },
{
    match services.hasher.hash(payload.password.as_str()) {
        Ok(hash) => Ok(
            NewUser {
                agent: agent.to_owned(),
                username: payload.username,
                password: hash,
                display_name: payload.display_name,
                email: payload.email,
                image_url: payload.image_url,
            },
        ),
        Err(error) => Err(ApiError::from_hasher_error(&error)),
    }
}

/// Prepares the creation of an application. Where the request names no
/// display name, the identifier stands in for it.
pub fn create_application(payload: CreateApplicationPayload, agent: &str) -> (prepared: NewApplication)
    ensures
        prepared.agent@ == agent@,
        prepared.application_id == payload.application_id,
        prepared.description == payload.description,
        prepared.display_name@ == match payload.display_name {
            Some(name) => name@,
            None => payload.application_id@,
        },
{
    let display_name = match payload.display_name {
        Some(name) => name,
        None => payload.application_id.clone(),
    };
    NewApplication {
        agent: agent.to_owned(),
        application_id: payload.application_id,
        display_name,
        description: payload.description,
    }
}

/// Prepares the creation of a grant. Where the request names no display
/// name, the grant's identifier stands in for it.
pub fn create_grant(payload: CreateGrantPayload, agent: &str) -> (prepared: NewGrant)
    ensures
        prepared.agent@ == agent@,
        prepared.grant_id == payload.grant_id,
        prepared.application_id == payload.application_id,
        prepared.description == payload.description,
        prepared.display_name@ == match payload.display_name {
            Some(name) => name@,
            None => payload.grant_id@,
        },
{
    let display_name = match payload.display_name {
        Some(name) => name,
        None => payload.grant_id.clone(),
    };
    NewGrant {
        agent: agent.to_owned(),
        grant_id: payload.grant_id,
        application_id: payload.application_id,
        display_name,
        description: payload.description,
    }
}

/// An optional string, borrowed.
fn borrowed(value: &Option<String>) -> (text: Option<&str>)
    ensures
        optional_str(text) == optional_text(*value),
{
    match value {
        Some(text) => Some(text.as_str()),
        None => None,
    }
}

/// The stored application after the update that `payload` asks for, made by
/// `agent` at `now`. An update that names neither a display name nor a
/// description is refused. Otherwise each field that is named takes its new
/// value, and the update fields record the change.
pub fn update_application(stored: &ApplicationDto, payload: &UpdateApplicationPayload, agent: &str, now: Timestamp) -> (updated:
    Result<ApplicationDto, ApplicationError>)
    ensures
        payload.display_name is None && payload.description is None ==> updated == Err::<
            ApplicationDto,
            ApplicationError,
        >(ApplicationError::NoChangeRequested),
        payload.display_name is Some || payload.description is Some ==> (updated matches Ok(application)
            && application@ == (ApplicationView {
            display_name: replaced(stored.display_name@, optional_text(payload.display_name)),
            description: replaced(stored.description@, optional_text(payload.description)),
            updated_by: agent@,
            updated_at: now,
            ..stored@
        })),
{
    let display_name = borrowed(&payload.display_name);
    let description = borrowed(&payload.description);
    match ApplicationDto::require_changes(display_name, description) {
        Ok(()) => Ok(stored.updated(agent, display_name, description, now)),
        Err(error) => Err(error),
    }
}

/// Sets the grant that `payload` names, in `store`, at the time `now`. An
/// unknown user is reported with the text of that error and changes nothing.
pub fn modify_grant(store: &mut GrantAssignmentStore, payload: &ModifyGrantPayload, agent: &str, now: Timestamp) -> (outcome:
    Result<(), ApiError>)
    requires
        old(store).well_formed(),
    ensures
        final(store).well_formed(),
        !has_user(old(store).users(), payload.user_id) ==> (outcome matches Err(error) && error.text() == (
        UserError::UserNotFound { user_id: payload.user_id }).message_text()),
        !has_user(old(store).users(), payload.user_id) ==> final(store).users() == old(store).users()
            && final(store).rows() == old(store).rows(),
        has_user(old(store).users(), payload.user_id) ==> outcome is Ok && final(store).rows()
            == after_set_grant(
            old(store).rows(),
            agent@,
            payload.user_id,
            payload.grant_id@,
            payload.enabled,
            now,
        ) && final(store).users() == touched(old(store).users(), payload.user_id, agent@, now),
{
    match store.set_grant_at(agent, payload.user_id, payload.grant_id.as_str(), payload.enabled, now) {
        Ok(()) => Ok(()),
        Err(error) => Err(ApiError::from_user_error(&error)),
    }
}

} // verus!
