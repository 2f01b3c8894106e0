//! Stored records as plain values: users and the grants assigned to them.

use vstd::prelude::*;
use crate::clock::Timestamp;
use crate::decimal::{decimal, push_decimal};
use crate::error::{ApplicationError, UserError};

verus! {

/// A failed conversion of a stored record.
#[derive(Clone, Copy, Debug, PartialEq, Eq)]
pub enum DtoError {
    /// The conversion is not provided.
    Unimplemented,
}

impl DtoError {
    /// The text of this error.
    pub open spec fn message_text(&self) -> Seq<char> {
        "wow!"@
    }

    /// The text shown for this error.
    pub fn message(&self) -> (text: String)
        ensures
            text@ == self.message_text(),
    {
        "wow!".to_owned()
    }
}

/// The characters of an optional string.
pub open spec fn optional_text(value: Option<String>) -> Option<Seq<char>> {
    match value {
        Some(text) => Some(text@),
        None => None,
    }
}

/// A copy of an optional string.
pub fn clone_optional_text(value: &Option<String>) -> (copy: Option<String>)
    ensures
        optional_text(copy) == optional_text(*value),
{
    match value {
        Some(text) => Some(text.clone()),
        None => None,
    }
}

/// A stored user.
#[derive(Clone, Debug, PartialEq, Eq)]
pub struct UserDto {
    pub user_id: i32,
    pub display_name: String,
    pub username: String,
    pub password: String,
    pub enabled: bool,
    pub email: Option<String>,
    pub image_url: Option<String>,
    pub last_login: Option<Timestamp>,
    pub created_by: String,
    pub updated_by: String,
    pub created_at: Timestamp,
    pub updated_at: Timestamp,
}

/// What a `UserDto` holds.
pub struct UserView {
    pub user_id: i32,
    pub display_name: Seq<char>,
    pub username: Seq<char>,
    pub password: Seq<char>,
    pub enabled: bool,
    pub email: Option<Seq<char>>,
    pub image_url: Option<Seq<char>>,
    pub last_login: Option<Timestamp>,
    pub created_by: Seq<char>,
    pub updated_by: Seq<char>,
    pub created_at: Timestamp,
    pub updated_at: Timestamp,
}

impl View for UserDto {
    type V = UserView;

    open spec fn view(&self) -> UserView {
        UserView {
            user_id: self.user_id,
            display_name: self.display_name@,
            username: self.username@,
            password: self.password@,
            enabled: self.enabled,
            email: optional_text(self.email),
            image_url: optional_text(self.image_url),
            last_login: self.last_login,
            created_by: self.created_by@,
            updated_by: self.updated_by@,
            created_at: self.created_at,
            updated_at: self.updated_at,
        }
    }
}

impl UserDto {
    /// Builds a user from the columns of its row, in column order. A non-zero
    /// `enabled` column means enabled.
    pub fn from_ordered(
        user_id: i32,
        display_name: String,
        username: String,
        password: String,
        enabled: i8,
        email: Option<String>,
        image_url: Option<String>,
        last_login: Option<Timestamp>,
        created_by: String,
        updated_by: String,
        created_at: Timestamp,
        updated_at: Timestamp,
    ) -> (built: Result<Self, DtoError>)
        ensures
            built == Ok::<Self, DtoError>(
                UserDto {
                    user_id,
                    display_name,
                    username,
                    password,
                    enabled: enabled != 0,
                    email,
                    image_url,
                    last_login,
                    created_by,
                    updated_by,
                    created_at,
                    updated_at,
                },
            ),
    {
        Ok(
            UserDto {
                user_id,
                display_name,
                username,
                password,
                enabled: enabled != 0,
                email,
                image_url,
                last_login,
                created_by,
                updated_by,
                created_at,
                updated_at,
            },
        )
    }

    /// A copy of this user.
    pub fn duplicate(&self) -> (copy: Self)
        ensures
            copy@ == self@,
    {
        UserDto {
            user_id: self.user_id,
            display_name: self.display_name.clone(),
            username: self.username.clone(),
            password: self.password.clone(),
            enabled: self.enabled,
            email: clone_optional_text(&self.email),
            image_url: clone_optional_text(&self.image_url),
            last_login: self.last_login,
            created_by: self.created_by.clone(),
            updated_by: self.updated_by.clone(),
            created_at: self.created_at,
            updated_at: self.updated_at,
        }
    }
}

/// The assignment of one grant to one user: the row keyed by
/// `(user_id, grant_id)`.
#[derive(Clone, Debug, PartialEq, Eq)]
pub struct UserGrantDto {
    pub user_id: i32,
    pub grant_id: String,
    pub enabled: bool,
    pub enabled_at: Option<Timestamp>,
    pub disabled_at: Option<Timestamp>,
    pub created_by: String,
    pub updated_by: String,
    pub created_at: Timestamp,
    pub updated_at: Timestamp,
}

/// What a `UserGrantDto` holds.
pub struct UserGrantView {
    pub user_id: i32,
    pub grant_id: Seq<char>,
    pub enabled: bool,
    pub enabled_at: Option<Timestamp>,
    pub disabled_at: Option<Timestamp>,
    pub created_by: Seq<char>,
    pub updated_by: Seq<char>,
    pub created_at: Timestamp,
    pub updated_at: Timestamp,
}

impl View for UserGrantDto {
    type V = UserGrantView;

    open spec fn view(&self) -> UserGrantView {
        UserGrantView {
            user_id: self.user_id,
            grant_id: self.grant_id@,
            enabled: self.enabled,
            enabled_at: self.enabled_at,
            disabled_at: self.disabled_at,
            created_by: self.created_by@,
            updated_by: self.updated_by@,
            created_at: self.created_at,
            updated_at: self.updated_at,
        }
    }
}

impl UserGrantDto {
    /// Builds an assignment from the columns of its row, in column order. A
    /// non-zero `enabled` column means enabled.
    pub fn from_ordered(
        user_id: i32,
        grant_id: String,
        enabled: i8,
        enabled_at: Option<Timestamp>,
        disabled_at: Option<Timestamp>,
        created_by: String,
        updated_by: String,
        created_at: Timestamp,
        updated_at: Timestamp,
    ) -> (built: Result<Self, DtoError>)
        ensures
            built == Ok::<Self, DtoError>(
                UserGrantDto {
                    user_id,
                    grant_id,
                    enabled: enabled != 0,
                    enabled_at,
                    disabled_at,
                    created_by,
                    updated_by,
                    created_at,
                    updated_at,
                },
            ),
    {
        Ok(
            UserGrantDto {
                user_id,
                grant_id,
                enabled: enabled != 0,
                enabled_at,
                disabled_at,
                created_by,
                updated_by,
                created_at,
                updated_at,
            },
        )
    }

    /// A copy of this assignment.
    pub fn duplicate(&self) -> (copy: Self)
        ensures
            copy@ == self@,
    {
        UserGrantDto {
            user_id: self.user_id,
            grant_id: self.grant_id.clone(),
            enabled: self.enabled,
            enabled_at: self.enabled_at,
            disabled_at: self.disabled_at,
            created_by: self.created_by.clone(),
            updated_by: self.updated_by.clone(),
            created_at: self.created_at,
            updated_at: self.updated_at,
        }
    }
}

/// The characters of an optional borrowed string.
pub open spec fn optional_str(value: Option<&str>) -> Option<Seq<char>> {
    match value {
        Some(text) => Some(text@),
        None => None,
    }
}

/// The value of a field after an update: the new value where one is given,
/// the old one otherwise.
pub open spec fn replaced<T>(old_value: T, new_value: Option<T>) -> T {
    match new_value {
        Some(value) => value,
        None => old_value,
    }
}

/// The agent under which a login is recorded: `user.set_last_login:` and the
/// user's identifier in decimal.
pub open spec fn login_agent(user_id: i32) -> Seq<char> {
    "user.set_last_login:"@ + decimal(user_id as int)
}

impl UserDto {
    /// Whether an update of a user names a field to change; an update that
    /// names none is refused.
    pub fn require_changes(
        enabled: Option<bool>,
        display_name: Option<&str>,
        password: Option<&str>,
        email: Option<&str>,
        image_url: Option<&str>,
    ) -> (verdict: Result<(), UserError>)
        ensures
            verdict == if enabled is Some || display_name is Some || password is Some || email is Some
                || image_url is Some {
                Ok::<(), UserError>(())
            } else {
                Err::<(), UserError>(UserError::NoChangeRequested)
            },
    {
        let has_changes = enabled.is_some() || display_name.is_some() || password.is_some()
            || email.is_some() || image_url.is_some();
        if !has_changes {
            return Err(UserError::NoChangeRequested);
        }
        Ok(())
    }

    /// This user after `agent` updated it at `now`. A field for which a value
    /// is given takes that value, every other field keeps its own. An e-mail
    /// address or an image, once set, can be replaced and not cleared.
    pub fn updated(
        &self,
        agent: &str,
        enabled: Option<bool>,
        display_name: Option<&str>,
        password: Option<&str>,
        email: Option<&str>,
        image_url: Option<&str>,
        now: Timestamp,
    ) -> (user: UserDto)
        ensures
            user@ == (UserView {
                enabled: replaced(self.enabled, enabled),
                display_name: replaced(self.display_name@, optional_str(display_name)),
                password: replaced(self.password@, optional_str(password)),
                email: if email is Some {
                    optional_str(email)
                } else {
                    self@.email
                },
                image_url: if image_url is Some {
                    optional_str(image_url)
                } else {
                    self@.image_url
                },
                updated_by: agent@,
                updated_at: now,
                ..self@
            }),
    {
        let mut user = self.duplicate();
        match enabled {
            Some(value) => {
                user.enabled = value;
            },
            None => {},
        }
        match display_name {
            Some(value) => {
                user.display_name = value.to_owned();
            },
            None => {},
        }
        match password {
            Some(value) => {
                user.password = value.to_owned();
            },
            None => {},
        }
        match email {
            Some(value) => {
                user.email = Some(value.to_owned());
            },
            None => {},
        }
        match image_url {
            Some(value) => {
                user.image_url = Some(value.to_owned());
            },
            None => {},
        }
        user.updated_by = agent.to_owned();
        user.updated_at = now;
        user
    }

    /// This user after a login at `now`: the login is noted, and recorded
    /// under the agent of logins.
    pub fn logged_in(&self, now: Timestamp) -> (user: UserDto)
        ensures
            user@ == (UserView {
                last_login: Some(now),
                updated_at: now,
                updated_by: login_agent(self.user_id),
                ..self@
            }),
    {
        let mut user = self.duplicate();
        user.last_login = Some(now);
        user.updated_at = now;
        let mut agent = "user.set_last_login:".to_owned();
        push_decimal(&mut agent, self.user_id);
        user.updated_by = agent;
        user
    }
}

/// A stored application.
#[derive(Clone, Debug, PartialEq, Eq)]
pub struct ApplicationDto {
    pub application_id: String,
    pub display_name: String,
    pub description: String,
    pub created_by: String,
    pub updated_by: String,
    pub created_at: Timestamp,
    pub updated_at: Timestamp,
}

impl ApplicationDto {
    /// Builds an application from the columns of its row, in column order.
    pub fn from_ordered(
        application_id: String,
        display_name: String,
        description: String,
        created_by: String,
        updated_by: String,
        created_at: Timestamp,
        updated_at: Timestamp,
    ) -> (built: Result<Self, DtoError>)
        ensures
            built == Ok::<Self, DtoError>(
                ApplicationDto {
                    application_id,
                    display_name,
                    description,
                    created_by,
                    updated_by,
                    created_at,
                    updated_at,
                },
            ),
    {
        Ok(
            ApplicationDto {
                application_id,
                display_name,
                description,
                created_by,
                updated_by,
                created_at,
                updated_at,
            },
        )
    }
}

/// What an `ApplicationDto` holds.
pub struct ApplicationView {
    pub application_id: Seq<char>,
    pub display_name: Seq<char>,
    pub description: Seq<char>,
    pub created_by: Seq<char>,
    pub updated_by: Seq<char>,
    pub created_at: Timestamp,
    pub updated_at: Timestamp,
}

impl View for ApplicationDto {
    type V = ApplicationView;

    open spec fn view(&self) -> ApplicationView {
        ApplicationView {
            application_id: self.application_id@,
            display_name: self.display_name@,
            description: self.description@,
            created_by: self.created_by@,
            updated_by: self.updated_by@,
            created_at: self.created_at,
            updated_at: self.updated_at,
        }
    }
}

impl ApplicationDto {
    /// Whether an update of an application names a field to change; an update
    /// that names none is refused.
    pub fn require_changes(display_name: Option<&str>, description: Option<&str>) -> (verdict: Result<
        (),
        ApplicationError,
    >)
        ensures
            verdict == if description is Some || display_name is Some {
                Ok::<(), ApplicationError>(())
            } else {
                Err::<(), ApplicationError>(ApplicationError::NoChangeRequested)
            },
    {
        let has_changes = description.is_some() || display_name.is_some();
        if !has_changes {
            return Err(ApplicationError::NoChangeRequested);
        }
        Ok(())
    }

    /// This application after `agent` updated it at `now`. A field for which
    /// a value is given takes that value, every other field keeps its own.
    pub fn updated(&self, agent: &str, display_name: Option<&str>, description: Option<&str>, now: Timestamp) -> (application:
        ApplicationDto)
        ensures
            application@ == (ApplicationView {
                display_name: replaced(self.display_name@, optional_str(display_name)),
                description: replaced(self.description@, optional_str(description)),
                updated_by: agent@,
                updated_at: now,
                ..self@
            }),
    {
        ApplicationDto {
            application_id: self.application_id.clone(),
            display_name: match display_name {
                Some(value) => value.to_owned(),
                None => self.display_name.clone(),
            },
            description: match description {
                Some(value) => value.to_owned(),
                None => self.description.clone(),
            },
            created_by: self.created_by.clone(),
            updated_by: agent.to_owned(),
            created_at: self.created_at,
            updated_at: now,
        }
    }
}

/// A stored grant. It belongs to one application.
#[derive(Clone, Debug, PartialEq, Eq)]
pub struct GrantDto {
    pub grant_id: String,
    pub application_id: String,
    pub display_name: String,
    pub description: String,
    pub created_by: String,
    pub updated_by: String,
    pub created_at: Timestamp,
    pub updated_at: Timestamp,
}

impl GrantDto {
    /// Builds a grant from the columns of its row, in column order.
    pub fn from_ordered(
        grant_id: String,
        application_id: String,
        display_name: String,
        description: String,
        created_by: String,
        updated_by: String,
        created_at: Timestamp,
        updated_at: Timestamp,
    ) -> (built: Result<Self, DtoError>)
        ensures
            built == Ok::<Self, DtoError>(
                GrantDto {
                    grant_id,
                    application_id,
                    display_name,
                    description,
                    created_by,
                    updated_by,
                    created_at,
                    updated_at,
                },
            ),
    {
        Ok(
            GrantDto {
                grant_id,
                application_id,
                display_name,
                description,
                created_by,
                updated_by,
                created_at,
                updated_at,
            },
        )
    }
}

/// A grant with the application that owns it.
#[derive(Clone, Debug, PartialEq, Eq)]
pub struct GrantDetailDto {
    pub grant: GrantDto,
    pub application: ApplicationDto,
}

/// An application with the grants it owns.
#[derive(Clone, Debug, PartialEq, Eq)]
pub struct ApplicationDetailDto {
    pub application: ApplicationDto,
    pub grants: Vec<GrantDto>,
}

/// An assignment with the grant it assigns.
#[derive(Clone, Debug, PartialEq, Eq)]
pub struct UserGrantDetailDto {
    pub user_grant: UserGrantDto,
    pub grant: GrantDetailDto,
}

/// A user with the grants assigned to it.
#[derive(Clone, Debug, PartialEq, Eq)]
pub struct UserDetailDto {
    pub user: UserDto,
    pub grants: Vec<UserGrantDetailDto>,
}

/// An assignment as it is read together with its grant and the grant's
/// application, either of which may be missing.
pub struct AssignmentRow {
    pub user_grant: UserGrantDto,
    pub grant: Option<GrantDto>,
    pub application: Option<ApplicationDto>,
}

/// Whether a row enters the detail of the user `user_id`: the assignment is
/// this user's and is enabled, and both the grant and the grant's application
/// were read with it.
pub open spec fn row_counts(row: AssignmentRow, user_id: i32) -> bool {
    row.user_grant.user_id == user_id && row.user_grant.enabled && row.grant is Some
        && row.application is Some
}

/// The details of the rows that count for the user `user_id`, in order. A
/// row of another user, a disabled row, and a row that lacks its grant or its
/// application are left out.
pub open spec fn detail_rows(rows: Seq<AssignmentRow>, user_id: i32) -> Seq<UserGrantDetailDto>
    decreases rows.len(),
{
    if rows.len() == 0 {
        Seq::empty()
    } else {
        let before = detail_rows(rows.drop_last(), user_id);
        let row = rows.last();
        if row_counts(row, user_id) {
            before.push(
                UserGrantDetailDto {
                    user_grant: row.user_grant,
                    grant: GrantDetailDto { grant: row.grant->0, application: row.application->0 },
                },
            )
        } else {
            before
        }
    }
}

/// The detail of a user holds enabled assignments only, each taken from a row
/// that counts, and every row that counts is in it: as many details as rows
/// that count, in the order of the rows.
pub proof fn lemma_detail_rows(rows: Seq<AssignmentRow>, user_id: i32)
    ensures
        detail_rows(rows, user_id).len() <= rows.len(),
        forall|i: int|
            0 <= i < detail_rows(rows, user_id).len() ==> (#[trigger] detail_rows(
                rows,
                user_id,
            )[i]).user_grant.enabled && detail_rows(rows, user_id)[i].user_grant.user_id == user_id,
        forall|i: int|
            0 <= i < detail_rows(rows, user_id).len() ==> exists|j: int|
                0 <= j < rows.len() && row_counts(rows[j], user_id) && (#[trigger] detail_rows(rows, user_id)[i]).user_grant
                    == rows[j].user_grant,
        forall|j: int|
            0 <= j < rows.len() && row_counts(#[trigger] rows[j], user_id) ==> exists|i: int|
                0 <= i < detail_rows(rows, user_id).len() && (#[trigger] detail_rows(rows, user_id)[i]).user_grant
                    == rows[j].user_grant,
        (forall|j: int| 0 <= j < rows.len() ==> !row_counts(#[trigger] rows[j], user_id)) ==> detail_rows(rows, user_id).len()
            == 0,
    decreases rows.len(),
{
    if rows.len() > 0 {
        let front = rows.drop_last();
        lemma_detail_rows(front, user_id);
        let before = detail_rows(front, user_id);
        let after = detail_rows(rows, user_id);
        let row = rows.last();
        assert forall|i: int| 0 <= i < after.len() implies (#[trigger] after[i]).user_grant.enabled
            && after[i].user_grant.user_id == user_id by {
            if i < before.len() {
                assert(after[i] == before[i]);
            }
        }
        assert forall|i: int| 0 <= i < after.len() implies exists|j: int|
            0 <= j < rows.len() && row_counts(rows[j], user_id) && (#[trigger] after[i]).user_grant
                == rows[j].user_grant by {
            if i < before.len() {
                assert(after[i] == before[i]);
                let j = choose|j: int|
                    0 <= j < front.len() && row_counts(front[j], user_id) && before[i].user_grant
                        == front[j].user_grant;
                assert(rows[j] == front[j]);
            } else {
                assert(rows[rows.len() - 1] == row);
            }
        }
        assert forall|j: int| 0 <= j < rows.len() && row_counts(#[trigger] rows[j], user_id) implies exists|i: int|
            0 <= i < after.len() && (#[trigger] after[i]).user_grant == rows[j].user_grant by {
            if j < front.len() {
                assert(front[j] == rows[j]);
                let i = choose|i: int|
                    0 <= i < before.len() && (#[trigger] before[i]).user_grant == front[j].user_grant;
                assert(after[i] == before[i]);
            } else {
                assert(after[after.len() - 1].user_grant == row.user_grant);
            }
        }
        if forall|j: int| 0 <= j < rows.len() ==> !row_counts(#[trigger] rows[j], user_id) {
            assert forall|j: int| 0 <= j < front.len() implies !row_counts(#[trigger] front[j], user_id) by {
                assert(front[j] == rows[j]);
            }
            assert(!row_counts(rows[rows.len() - 1], user_id));
        }
    }
}

impl UserDetailDto {
    /// A user with the assignments read for it: its own enabled ones. An
    /// assignment of another user, one that is disabled, and one whose grant
    /// or application is missing are left out.
    pub fn populate(user: UserDto, rows: Vec<AssignmentRow>) -> (detail: UserDetailDto)
        ensures
            detail.user == user,
            detail.grants@ == detail_rows(rows@, user.user_id),
            forall|i: int|
                0 <= i < detail.grants@.len() ==> (#[trigger] detail.grants@[i]).user_grant.enabled
                    && detail.grants@[i].user_grant.user_id == user.user_id,
    {
        let mut grants: Vec<UserGrantDetailDto> = Vec::new();
        let ghost all = rows@;
        for row in it: rows
            invariant
                it.seq() == all,
                grants@ == detail_rows(all.take(it.index()), user.user_id),
        {
            proof {
                let n = it.index();
                assert(all.take(n + 1).drop_last() == all.take(n));
                assert(all.take(n + 1).last() == row);
            }
            if row.user_grant.user_id == user.user_id && row.user_grant.enabled {
                match (row.grant, row.application) {
                    (Some(grant), Some(application)) => {
                        grants.push(
                            UserGrantDetailDto {
                                user_grant: row.user_grant,
                                grant: GrantDetailDto { grant, application },
                            },
                        );
                    },
                    _ => {},
                }
            }
        }
        proof {
            assert(all.take(all.len() as int) == all);
            lemma_detail_rows(all, user.user_id);
        }
        UserDetailDto { user, grants }
    }
}

} // verus!
