//! Errors of the storage layer and of the operations on users, grants and
//! applications, as plain values, each with the text it shows.

use vstd::prelude::*;
use vstd::string::StringExecFns;
use crate::decimal::{decimal, digits, push_decimal, push_digits};
use crate::dto::DtoError;

verus! {

/// A failure reported by the database layer.
#[derive(Clone, Debug, PartialEq, Eq)]
pub enum RepositoryError {
    ConnectionAcquire { inner_error: String },
    TryInto { from: String, to: String, inner_error: String },
    Connection { inner_error: String },
    Execute { inner_error: String },
    Query { inner_error: String },
    ConvertFromU64 { ty: String },
    UnpackInsertId,
    UpdateGetPrimaryKey,
    RecordNotFound { context: String },
    AttributeNotSet { attribute: String },
    Custom { context: String },
    Type { context: String },
    Json { context: String },
    Migration { context: String },
    RecordNotInserted,
    RecordNotUpdated,
    BackendNotSupported { backend: String, context: String },
    KeyArityMismatch { expected: u8, received: u8 },
    PrimaryKeyNotSet { context: String },
    Rbac { context: String },
    AccessDenied { permission: String, resource: String },
}

impl RepositoryError {
    /// The text of this error.
    pub open spec fn message_text(&self) -> Seq<char> {
        match *self {
            RepositoryError::ConnectionAcquire { inner_error } => "Failed to acquire a database connection: "@
                + inner_error@,
            RepositoryError::TryInto { from, to, inner_error } => "Failed to convert '"@ + from@ + "' to '"@
                + to@ + "': "@ + inner_error@,
            RepositoryError::Connection { inner_error } => "Connection error: "@ + inner_error@,
            RepositoryError::Execute { inner_error } => "Execution error: "@ + inner_error@,
            RepositoryError::Query { inner_error } => "Query error: "@ + inner_error@,
            RepositoryError::ConvertFromU64 { ty } => "Type "@ + ty@ + " cannot be converted from u64"@,
            RepositoryError::UnpackInsertId => "Failed to unpack last_insert_id"@,
            RepositoryError::UpdateGetPrimaryKey => "Failed to get primary key from model"@,
            RepositoryError::RecordNotFound { context } => "Not found: "@ + context@,
            RepositoryError::AttributeNotSet { attribute } => "Attribute "@ + attribute@ + " is not set"@,
            RepositoryError::Custom { context } => context@,
            RepositoryError::Type { context } => "Type error: "@ + context@,
            RepositoryError::Json { context } => "JSON error: "@ + context@,
            RepositoryError::Migration { context } => "Migration error: "@ + context@,
            RepositoryError::RecordNotInserted => "None of the records are inserted"@,
            RepositoryError::RecordNotUpdated => "None of the records are updated"@,
            RepositoryError::BackendNotSupported { backend, context } => "Operation not supported by backend "@
                + backend@ + ": "@ + context@,
            RepositoryError::KeyArityMismatch { expected, received } => "Key arity mismatch: expected "@
                + digits(expected as nat) + ", received "@ + digits(received as nat),
            RepositoryError::PrimaryKeyNotSet { context } => "Primay key not set for "@ + context@,
            RepositoryError::Rbac { context } => "RBAC error: "@ + context@,
            RepositoryError::AccessDenied { permission, resource } => "Access denied: cannot perform `"@
                + permission@ + "` on `"@ + resource@ + "`"@,
        }
    }

    /// The text shown for this error.
    pub fn message(&self) -> (text: String)
        ensures
            text@ == self.message_text(),
    {
        let text = match self {
            RepositoryError::ConnectionAcquire { inner_error } => "Failed to acquire a database connection: ".to_owned().concat(
                inner_error.as_str(),
            ),
            RepositoryError::TryInto { from, to, inner_error } => "Failed to convert '".to_owned().concat(
                from.as_str(),
            ).concat("' to '").concat(to.as_str()).concat("': ").concat(inner_error.as_str()),
            RepositoryError::Connection { inner_error } => "Connection error: ".to_owned().concat(
                inner_error.as_str(),
            ),
            RepositoryError::Execute { inner_error } => "Execution error: ".to_owned().concat(
                inner_error.as_str(),
            ),
            RepositoryError::Query { inner_error } => "Query error: ".to_owned().concat(inner_error.as_str()),
            RepositoryError::ConvertFromU64 { ty } => "Type ".to_owned().concat(ty.as_str()).concat(
                " cannot be converted from u64",
            ),
            RepositoryError::UnpackInsertId => "Failed to unpack last_insert_id".to_owned(),
            RepositoryError::UpdateGetPrimaryKey => "Failed to get primary key from model".to_owned(),
            RepositoryError::RecordNotFound { context } => "Not found: ".to_owned().concat(context.as_str()),
            RepositoryError::AttributeNotSet { attribute } => "Attribute ".to_owned().concat(
                attribute.as_str(),
            ).concat(" is not set"),
            RepositoryError::Custom { context } => context.clone(),
            RepositoryError::Type { context } => "Type error: ".to_owned().concat(context.as_str()),
            RepositoryError::Json { context } => "JSON error: ".to_owned().concat(context.as_str()),
            RepositoryError::Migration { context } => "Migration error: ".to_owned().concat(context.as_str()),
            RepositoryError::RecordNotInserted => "None of the records are inserted".to_owned(),
            RepositoryError::RecordNotUpdated => "None of the records are updated".to_owned(),
            RepositoryError::BackendNotSupported { backend, context } => "Operation not supported by backend ".to_owned().concat(
                backend.as_str(),
            ).concat(": ").concat(context.as_str()),
            RepositoryError::KeyArityMismatch { expected, received } => {
                let mut text = "Key arity mismatch: expected ".to_owned();
                push_digits(&mut text, *expected as u64);
                let mut text = text.concat(", received ");
                push_digits(&mut text, *received as u64);
                text
            },
            RepositoryError::PrimaryKeyNotSet { context } => "Primay key not set for ".to_owned().concat(
                context.as_str(),
            ),
            RepositoryError::Rbac { context } => "RBAC error: ".to_owned().concat(context.as_str()),
            RepositoryError::AccessDenied { permission, resource } => "Access denied: cannot perform `".to_owned().concat(
                permission.as_str(),
            ).concat("` on `").concat(resource.as_str()).concat("`"),
        };
        assert(text@ =~= self.message_text());
        text
    }
}

/// A failure of an operation on users.
#[allow(inconsistent_fields)]
#[derive(Clone, Debug, PartialEq, Eq)]
pub enum UserError {
    /// The database layer failed.
    Database { inner_error: RepositoryError },
    /// A stored record could not be converted.
    Dto { inner_error: DtoError },
    /// The user was not created.
    NotCreated,
    /// No user has this identifier.
    UserNotFound { user_id: i32 },
    /// An update named no field to change.
    NoChangeRequested,
}

impl UserError {
    /// The text of this error.
    pub open spec fn message_text(&self) -> Seq<char> {
        match *self {
            UserError::Database { inner_error } => inner_error.message_text(),
            UserError::Dto { inner_error } => inner_error.message_text(),
            UserError::NotCreated => "The user was not created, an unknown error occurred"@,
            UserError::UserNotFound { user_id } => "No user was found with user_id="@ + decimal(
                user_id as int,
            ),
            UserError::NoChangeRequested => "Called update with no changes"@,
        }
    }

    /// The text shown for this error.
    pub fn message(&self) -> (text: String)
        ensures
            text@ == self.message_text(),
    {
        match self {
            UserError::Database { inner_error } => inner_error.message(),
            UserError::Dto { inner_error } => inner_error.message(),
            UserError::NotCreated => "The user was not created, an unknown error occurred".to_owned(),
            UserError::UserNotFound { user_id } => {
                let mut text = "No user was found with user_id=".to_owned();
                push_decimal(&mut text, *user_id);
                text
            },
            UserError::NoChangeRequested => "Called update with no changes".to_owned(),
        }
    }
}

/// A failure of an operation on grants.
#[allow(inconsistent_fields)]
#[derive(Clone, Debug, PartialEq, Eq)]
pub enum GrantError {
    /// The database layer failed.
    Database { inner_error: RepositoryError },
    /// A stored record could not be converted.
    Dto { inner_error: DtoError },
    /// No application has this identifier.
    ApplicationNotFound { application_id: String },
    /// No grant has this identifier.
    GrantNotFound { grant_id: String },
}

impl GrantError {
    /// The text of this error.
    pub open spec fn message_text(&self) -> Seq<char> {
        match *self {
            GrantError::Database { inner_error } => inner_error.message_text(),
            GrantError::Dto { inner_error } => inner_error.message_text(),
            GrantError::ApplicationNotFound { application_id } => "No application was found with id="@
                + application_id@,
            GrantError::GrantNotFound { grant_id } => "No grant was found with id="@ + grant_id@,
        }
    }

    /// The text shown for this error.
    pub fn message(&self) -> (text: String)
        ensures
            text@ == self.message_text(),
    {
        match self {
            GrantError::Database { inner_error } => inner_error.message(),
            GrantError::Dto { inner_error } => inner_error.message(),
            GrantError::ApplicationNotFound { application_id } => "No application was found with id=".to_owned().concat(
                application_id.as_str(),
            ),
            GrantError::GrantNotFound { grant_id } => "No grant was found with id=".to_owned().concat(
                grant_id.as_str(),
            ),
        }
    }
}

/// A failure of an operation on applications.
#[allow(inconsistent_fields)]
#[derive(Clone, Debug, PartialEq, Eq)]
pub enum ApplicationError {
    /// The database layer failed.
    Database { inner_error: RepositoryError },
    /// A stored record could not be converted.
    Dto { inner_error: DtoError },
    /// No application has this identifier.
    ApplicationNotFound { application_id: String },
    /// An update named no field to change.
    NoChangeRequested,
}

impl ApplicationError {
    /// The text of this error.
    pub open spec fn message_text(&self) -> Seq<char> {
        match *self {
            ApplicationError::Database { inner_error } => inner_error.message_text(),
            ApplicationError::Dto { inner_error } => inner_error.message_text(),
            ApplicationError::ApplicationNotFound { application_id } => "No application was found with id="@
                + application_id@,
            ApplicationError::NoChangeRequested => "Called update with no changes"@,
        }
    }

    /// The text shown for this error.
    pub fn message(&self) -> (text: String)
        ensures
            text@ == self.message_text(),
    {
        match self {
            ApplicationError::Database { inner_error } => inner_error.message(),
            ApplicationError::Dto { inner_error } => inner_error.message(),
            ApplicationError::ApplicationNotFound { application_id } => "No application was found with id=".to_owned().concat(
                application_id.as_str(),
            ),
            ApplicationError::NoChangeRequested => "Called update with no changes".to_owned(),
        }
    }
}

} // verus!
