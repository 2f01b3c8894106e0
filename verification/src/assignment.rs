//! The assignment of grants to users: one row per `(user, grant)` pair, set
//! by an upsert that creates the row or toggles it and never duplicates it.

use vstd::prelude::*;
use crate::clock::{unix_now, Timestamp};
use crate::dto::{UserDto, UserGrantDto, UserGrantView, UserView};
use crate::error::UserError;
use crate::text::str_eq;

verus! {

/// Whether `row` is the assignment of `grant_id` to `user_id`.
pub open spec fn same_key(row: UserGrantView, user_id: i32, grant_id: Seq<char>) -> bool {
    row.user_id == user_id && row.grant_id == grant_id
}

/// Whether the timestamps of `row` match its state: an enabled row has
/// `enabled_at` and no `disabled_at`, a disabled row the reverse.
pub open spec fn consistent(row: UserGrantView) -> bool {
    if row.enabled {
        row.enabled_at is Some && row.disabled_at is None
    } else {
        row.enabled_at is None && row.disabled_at is Some
    }
}

/// No two rows share a key.
pub open spec fn unique_keys(rows: Seq<UserGrantView>) -> bool {
    forall|i: int, j: int|
        0 <= i < rows.len() && 0 <= j < rows.len() && #[trigger] rows[i].user_id == #[trigger] rows[j].user_id
            && rows[i].grant_id == rows[j].grant_id ==> i == j
}

/// The timestamps of every row match its state.
pub open spec fn all_consistent(rows: Seq<UserGrantView>) -> bool {
    forall|i: int| 0 <= i < rows.len() ==> consistent(#[trigger] rows[i])
}

/// Whether some row assigns `grant_id` to `user_id`.
pub open spec fn has_row(rows: Seq<UserGrantView>, user_id: i32, grant_id: Seq<char>) -> bool {
    exists|i: int| 0 <= i < rows.len() && same_key(#[trigger] rows[i], user_id, grant_id)
}

/// The place of a row that assigns `grant_id` to `user_id`, where there is one.
pub open spec fn row_index(rows: Seq<UserGrantView>, user_id: i32, grant_id: Seq<char>) -> int {
    choose|i: int| 0 <= i < rows.len() && same_key(#[trigger] rows[i], user_id, grant_id)
}

/// The row that assigns `grant_id` to `user_id`, if any.
pub open spec fn row_of(rows: Seq<UserGrantView>, user_id: i32, grant_id: Seq<char>) -> Option<
    UserGrantView,
> {
    if has_row(rows, user_id, grant_id) {
        Some(rows[row_index(rows, user_id, grant_id)])
    } else {
        None
    }
}

/// Exactly one row assigns `grant_id` to `user_id`.
pub open spec fn exactly_one_row(rows: Seq<UserGrantView>, user_id: i32, grant_id: Seq<char>) -> bool {
    exists|i: int|
        0 <= i < rows.len() && same_key(#[trigger] rows[i], user_id, grant_id) && forall|j: int|
            0 <= j < rows.len() && same_key(#[trigger] rows[j], user_id, grant_id) ==> j == i
}

/// The row that a call writes. A row that exists keeps its key and its
/// creation fields; a fresh row is created by `agent` at `now`. Either way the
/// state, the update fields and both state timestamps are rewritten: the
/// timestamp of the new state is `now`, the other one is cleared.
pub open spec fn assigned(
    existing: Option<UserGrantView>,
    agent: Seq<char>,
    user_id: i32,
    grant_id: Seq<char>,
    enabled: bool,
    now: Timestamp,
) -> UserGrantView {
    let base = match existing {
        Some(row) => row,
        None => UserGrantView {
            user_id,
            grant_id,
            enabled,
            enabled_at: None,
            disabled_at: None,
            created_by: agent,
            updated_by: agent,
            created_at: now,
            updated_at: now,
        },
    };
    UserGrantView {
        enabled,
        enabled_at: if enabled { Some(now) } else { None },
        disabled_at: if enabled { None } else { Some(now) },
        updated_by: agent,
        updated_at: now,
        ..base
    }
}

/// What a stored row becomes when `row` is written over it: the state, the
/// update fields and the state timestamps are taken from `row`, the key and
/// the creation fields stay.
pub open spec fn overwritten(stored: UserGrantView, row: UserGrantView) -> UserGrantView {
    UserGrantView {
        enabled: row.enabled,
        enabled_at: row.enabled_at,
        disabled_at: row.disabled_at,
        updated_by: row.updated_by,
        updated_at: row.updated_at,
        ..stored
    }
}

/// The rows after the upsert of `row`: written over the row with its key where
/// there is one, appended otherwise.
pub open spec fn upserted(rows: Seq<UserGrantView>, row: UserGrantView) -> Seq<UserGrantView> {
    if has_row(rows, row.user_id, row.grant_id) {
        let at = row_index(rows, row.user_id, row.grant_id);
        rows.update(at, overwritten(rows[at], row))
    } else {
        rows.push(row)
    }
}

/// The rows after the grant `grant_id` of user `user_id` is set to `enabled`.
pub open spec fn after_set_grant(
    rows: Seq<UserGrantView>,
    agent: Seq<char>,
    user_id: i32,
    grant_id: Seq<char>,
    enabled: bool,
    now: Timestamp,
) -> Seq<UserGrantView> {
    upserted(rows, assigned(row_of(rows, user_id, grant_id), agent, user_id, grant_id, enabled, now))
}

/// No two users share an identifier.
pub open spec fn unique_users(users: Seq<UserView>) -> bool {
    forall|i: int, j: int|
        0 <= i < users.len() && 0 <= j < users.len() && #[trigger] users[i].user_id
            == #[trigger] users[j].user_id ==> i == j
}

/// Whether a user with this identifier exists.
pub open spec fn has_user(users: Seq<UserView>, user_id: i32) -> bool {
    exists|i: int| 0 <= i < users.len() && (#[trigger] users[i]).user_id == user_id
}

/// The place of the user with this identifier, where there is one.
pub open spec fn user_index(users: Seq<UserView>, user_id: i32) -> int {
    choose|i: int| 0 <= i < users.len() && (#[trigger] users[i]).user_id == user_id
}

/// The users after `agent` changed something of user `user_id` at `now`: that
/// user's update fields are rewritten, nothing else changes.
pub open spec fn touched(users: Seq<UserView>, user_id: i32, agent: Seq<char>, now: Timestamp) -> Seq<
    UserView,
> {
    if has_user(users, user_id) {
        let at = user_index(users, user_id);
        users.update(at, UserView { updated_by: agent, updated_at: now, ..users[at] })
    } else {
        users
    }
}

/// Touching a user changes no identifier: the same users exist afterwards.
pub proof fn lemma_touched_keeps_users(users: Seq<UserView>, user_id: i32, agent: Seq<char>, now: Timestamp)
    ensures
        touched(users, user_id, agent, now).len() == users.len(),
        forall|i: int|
            0 <= i < users.len() ==> (#[trigger] touched(users, user_id, agent, now)[i]).user_id
                == users[i].user_id,
        forall|other: i32| has_user(touched(users, user_id, agent, now), other) == has_user(users, other),
        unique_users(users) ==> unique_users(touched(users, user_id, agent, now)),
{
    let after = touched(users, user_id, agent, now);
    assert forall|i: int| 0 <= i < users.len() implies (#[trigger] after[i]).user_id
        == users[i].user_id by {}
    assert forall|other: i32| has_user(after, other) == has_user(users, other) by {
        if has_user(after, other) {
            let i = choose|i: int| 0 <= i < after.len() && (#[trigger] after[i]).user_id == other;
            assert(users[i].user_id == other);
        }
        if has_user(users, other) {
            let i = choose|i: int| 0 <= i < users.len() && (#[trigger] users[i]).user_id == other;
            assert(after[i].user_id == other);
        }
    }
    if unique_users(users) {
        assert forall|i: int, j: int|
            0 <= i < after.len() && 0 <= j < after.len() && #[trigger] after[i].user_id
                == #[trigger] after[j].user_id implies i == j by {
            assert(users[i].user_id == users[j].user_id);
        }
    }
}

/// The views of a list of rows.
pub open spec fn row_views(rows: Seq<UserGrantDto>) -> Seq<UserGrantView> {
    Seq::new(rows.len(), |i: int| rows[i]@)
}

/// The views of a list of users.
pub open spec fn user_views(users: Seq<UserDto>) -> Seq<UserView> {
    Seq::new(users.len(), |i: int| users[i]@)
}

impl UserGrantDto {
    /// Builds the row to write when the grant `grant_id` of user `user_id` is set
    /// to `enabled` by `agent` at `now`, given the row stored for that pair.
    pub fn assign(
        existing: Option<&UserGrantDto>,
        agent: &str,
        user_id: i32,
        grant_id: &str,
        enabled: bool,
        now: Timestamp,
    ) -> (row: UserGrantDto)
        ensures
            row@ == assigned(
                match existing {
                    Some(stored) => Some(stored@),
                    None => None,
                },
                agent@,
                user_id,
                grant_id@,
                enabled,
                now,
            ),
            consistent(row@),
    {
        let mut model = match existing {
            Some(stored) => stored.duplicate(),
            None => UserGrantDto {
                user_id,
                grant_id: grant_id.to_owned(),
                enabled,
                enabled_at: None,
                disabled_at: None,
                created_by: agent.to_owned(),
                updated_by: agent.to_owned(),
                created_at: now,
                updated_at: now,
            },
        };
        model.enabled = enabled;
        model.updated_by = agent.to_owned();
        model.updated_at = now;
        if enabled {
            model.enabled_at = Some(now);
            model.disabled_at = None;
        } else {
            model.disabled_at = Some(now);
            model.enabled_at = None;
        }
        model
    }
}

/// The users and the grant assignments of a service, held in memory.
pub struct GrantAssignmentStore {
    users: Vec<UserDto>,
    assignments: Vec<UserGrantDto>,
}

impl GrantAssignmentStore {
    /// The users held.
    pub closed spec fn users(&self) -> Seq<UserView> {
        user_views(self.users@)
    }

    /// The assignments held.
    pub closed spec fn rows(&self) -> Seq<UserGrantView> {
        row_views(self.assignments@)
    }

    /// What holds of every store that this module hands out: every user has
    /// its own identifier, every assignment its own key, and the timestamps of
    /// every assignment match its state.
    pub open spec fn well_formed(&self) -> bool {
        unique_users(self.users()) && unique_keys(self.rows()) && all_consistent(self.rows())
    }

    /// A store without users or assignments.
    pub fn new() -> (store: Self)
        ensures
            store.well_formed(),
            store.users() == Seq::<UserView>::empty(),
            store.rows() == Seq::<UserGrantView>::empty(),
    {
        let store = GrantAssignmentStore { users: Vec::new(), assignments: Vec::new() };
        assert(store.users() =~= Seq::<UserView>::empty());
        assert(store.rows() =~= Seq::<UserGrantView>::empty());
        store
    }

    /// Where the user `user_id` is held, if anywhere.
    fn find_user(&self, user_id: i32) -> (found: Option<usize>)
        requires
            self.well_formed(),
        ensures
            found is Some <==> has_user(self.users(), user_id),
            found matches Some(at) ==> at < self.users().len() && self.users()[at as int].user_id
                == user_id && at == user_index(self.users(), user_id),
    {
        let mut i: usize = 0;
        while i < self.users.len()
            invariant
                i <= self.users.len(),
                self.well_formed(),
                forall|j: int| 0 <= j < i ==> (#[trigger] self.users()[j]).user_id != user_id,
            decreases self.users.len() - i,
        {
            if self.users[i].user_id == user_id {
                proof {
                    let users = self.users();
                    assert(users[i as int].user_id == user_id);
                    let chosen = user_index(users, user_id);
                    assert(users[chosen].user_id == users[i as int].user_id);
                }
                return Some(i);
            }
            i += 1;
        }
        None
    }

    /// Where the assignment of `grant_id` to `user_id` is held, if anywhere.
    fn find_row(&self, user_id: i32, grant_id: &str) -> (found: Option<usize>)
        requires
            self.well_formed(),
        ensures
            found is Some <==> has_row(self.rows(), user_id, grant_id@),
            found matches Some(at) ==> at < self.rows().len() && same_key(
                self.rows()[at as int],
                user_id,
                grant_id@,
            ) && at == row_index(self.rows(), user_id, grant_id@),
    {
        let mut i: usize = 0;
        while i < self.assignments.len()
            invariant
                i <= self.assignments.len(),
                self.well_formed(),
                forall|j: int| 0 <= j < i ==> !same_key(#[trigger] self.rows()[j], user_id, grant_id@),
            decreases self.assignments.len() - i,
        {
            if self.assignments[i].user_id == user_id && str_eq(
                self.assignments[i].grant_id.as_str(),
                grant_id,
            ) {
                proof {
                    let rows = self.rows();
                    assert(same_key(rows[i as int], user_id, grant_id@));
                    let chosen = row_index(rows, user_id, grant_id@);
                    assert(rows[chosen].user_id == rows[i as int].user_id);
                }
                return Some(i);
            }
            i += 1;
        }
        None
    }

    /// Adds a user. A user whose identifier is taken is not added.
    pub fn add_user(&mut self, user: UserDto) -> (added: bool)
        requires
            old(self).well_formed(),
        ensures
            final(self).well_formed(),
            added == !has_user(old(self).users(), user.user_id),
            added ==> final(self).users() == old(self).users().push(user@),
            !added ==> final(self).users() == old(self).users(),
            final(self).rows() == old(self).rows(),
    {
        if self.find_user(user.user_id).is_some() {
            return false;
        }
        let ghost before = self.users();
        self.users.push(user);
        assert(self.users() =~= before.push(user@));
        true
    }

    /// The assignment of `grant_id` to `user_id`, if the store holds it.
    pub fn assignment(&self, user_id: i32, grant_id: &str) -> (found: Option<&UserGrantDto>)
        requires
            self.well_formed(),
        ensures
            match found {
                Some(row) => Some(row@),
                None => None,
            } == row_of(self.rows(), user_id, grant_id@),
    {
        match self.find_row(user_id, grant_id) {
            Some(at) => Some(&self.assignments[at]),
            None => None,
        }
    }

    /// The user `user_id`, if the store holds it.
    pub fn user(&self, user_id: i32) -> (found: Option<&UserDto>)
        requires
            self.well_formed(),
        ensures
            found is Some <==> has_user(self.users(), user_id),
            found matches Some(user) ==> user@ == self.users()[user_index(self.users(), user_id)],
    {
        match self.find_user(user_id) {
            Some(at) => Some(&self.users[at]),
            None => None,
        }
    }

    /// How many assignments the store holds.
    pub fn assignment_count(&self) -> (count: usize)
        ensures
            count == self.rows().len(),
    {
        self.assignments.len()
    }

    /// Sets the grant `grant_id` of user `user_id` to `enabled`, on behalf of
    /// `agent`, at the time `now`. An unknown user is an error and changes
    /// nothing. Otherwise the assignment is created or rewritten in place, and
    /// the user's update fields record the change.
    pub fn set_grant_at(
        &mut self,
        agent: &str,
        user_id: i32,
        grant_id: &str,
        enabled: bool,
        now: Timestamp,
    ) -> (outcome: Result<(), UserError>)
        requires
            old(self).well_formed(),
        ensures
            final(self).well_formed(),
            !has_user(old(self).users(), user_id) ==> outcome == Err::<(), UserError>(
                UserError::UserNotFound { user_id },
            ) && final(self).users() == old(self).users() && final(self).rows() == old(self).rows(),
            has_user(old(self).users(), user_id) ==> outcome is Ok && final(self).rows()
                == after_set_grant(old(self).rows(), agent@, user_id, grant_id@, enabled, now)
                && final(self).users() == touched(old(self).users(), user_id, agent@, now),
            has_user(old(self).users(), user_id) ==> exactly_one_row(
                final(self).rows(),
                user_id,
                grant_id@,
            ),
            forall|other: i32| has_user(final(self).users(), other) == has_user(old(self).users(), other),
    {
        let ghost rows = self.rows();
        let ghost users = self.users();
        let stored = self.find_row(user_id, grant_id);
        let user_at = match self.find_user(user_id) {
            Some(at) => at,
            None => {
                return Err(UserError::UserNotFound { user_id });
            },
        };
        let model = match stored {
            Some(at) => UserGrantDto::assign(
                Some(&self.assignments[at]),
                agent,
                user_id,
                grant_id,
                enabled,
                now,
            ),
            None => UserGrantDto::assign(None, agent, user_id, grant_id, enabled, now),
        };
        assert(model@ == assigned(row_of(rows, user_id, grant_id@), agent@, user_id, grant_id@, enabled, now));
        proof {
            lemma_assigned_key(row_of(rows, user_id, grant_id@), agent@, user_id, grant_id@, enabled, now);
            lemma_upsert_keeps_unique(rows, model@);
        }
        match stored {
            Some(at) => {
                let mut row = self.assignments[at].duplicate();
                row.enabled = model.enabled;
                row.enabled_at = model.enabled_at;
                row.disabled_at = model.disabled_at;
                row.updated_by = model.updated_by;
                row.updated_at = model.updated_at;
                assert(row@ == overwritten(rows[at as int], model@));
                self.assignments.set(at, row);
                assert(row_views(self.assignments@) =~= upserted(rows, model@));
            },
            None => {
                self.assignments.push(model);
                assert(row_views(self.assignments@) =~= upserted(rows, model@));
            },
        }
        let mut user = self.users[user_at].duplicate();
        user.updated_by = agent.to_owned();
        user.updated_at = now;
        self.users.set(user_at, user);
        assert(user_views(self.users@) =~= touched(users, user_id, agent@, now));
        proof {
            lemma_touched_keeps_users(users, user_id, agent@, now);
        }
        Ok(())
    }

    /// Sets the grant `grant_id` of user `user_id` to `enabled`, on behalf of
    /// `agent`, at the time the clock shows.
    pub fn set_grant(&mut self, agent: &str, user_id: i32, grant_id: &str, enabled: bool) -> (outcome:
        Result<(), UserError>)
        requires
            old(self).well_formed(),
        ensures
            final(self).well_formed(),
            !has_user(old(self).users(), user_id) ==> outcome == Err::<(), UserError>(
                UserError::UserNotFound { user_id },
            ) && final(self).users() == old(self).users() && final(self).rows() == old(self).rows(),
            has_user(old(self).users(), user_id) ==> outcome is Ok && exists|now: Timestamp|
                final(self).rows() == #[trigger] after_set_grant(
                    old(self).rows(),
                    agent@,
                    user_id,
                    grant_id@,
                    enabled,
                    now,
                ) && final(self).users() == touched(old(self).users(), user_id, agent@, now),
    {
        let now = unix_now();
        self.set_grant_at(agent, user_id, grant_id, enabled, now)
    }
}

/// The row that a call writes has the key that the call names, provided the
/// row it starts from has that key.
pub proof fn lemma_assigned_key(
    existing: Option<UserGrantView>,
    agent: Seq<char>,
    user_id: i32,
    grant_id: Seq<char>,
    enabled: bool,
    now: Timestamp,
)
    requires
        existing matches Some(row) ==> same_key(row, user_id, grant_id),
    ensures
        same_key(assigned(existing, agent, user_id, grant_id, enabled, now), user_id, grant_id),
        consistent(assigned(existing, agent, user_id, grant_id, enabled, now)),
{
}

/// An upsert never makes two rows share a key, keeps every other row as it
/// is, and leaves exactly one row with the key written. Where the row written
/// and the rows before are consistent, so are the rows after.
pub proof fn lemma_upsert_keeps_unique(rows: Seq<UserGrantView>, row: UserGrantView)
    requires
        unique_keys(rows),
    ensures
        unique_keys(upserted(rows, row)),
        exactly_one_row(upserted(rows, row), row.user_id, row.grant_id),
        has_row(rows, row.user_id, row.grant_id) ==> upserted(rows, row).len() == rows.len(),
        !has_row(rows, row.user_id, row.grant_id) ==> upserted(rows, row).len() == rows.len() + 1,
        forall|i: int|
            0 <= i < rows.len() && !same_key(#[trigger] rows[i], row.user_id, row.grant_id) ==> upserted(
                rows,
                row,
            )[i] == rows[i],
        all_consistent(rows) && consistent(row) ==> all_consistent(upserted(rows, row)),
{
    let after = upserted(rows, row);
    if all_consistent(rows) && consistent(row) {
        assert forall|i: int| 0 <= i < after.len() implies consistent(#[trigger] after[i]) by {
            if i < rows.len() {
                assert(consistent(rows[i]));
            }
        }
    }
    if has_row(rows, row.user_id, row.grant_id) {
        let at = row_index(rows, row.user_id, row.grant_id);
        assert(same_key(after[at], row.user_id, row.grant_id));
        assert forall|j: int| 0 <= j < after.len() && same_key(#[trigger] after[j], row.user_id, row.grant_id)
            implies j == at by {
            if j != at {
                assert(after[j] == rows[j]);
                assert(rows[j].user_id == rows[at].user_id);
            }
        }
        assert forall|i: int, j: int|
            0 <= i < after.len() && 0 <= j < after.len() && #[trigger] after[i].user_id
                == #[trigger] after[j].user_id && after[i].grant_id == after[j].grant_id implies i
            == j by {
            assert(after[i].user_id == rows[i].user_id && after[i].grant_id == rows[i].grant_id);
            assert(after[j].user_id == rows[j].user_id && after[j].grant_id == rows[j].grant_id);
        }
    } else {
        let at = rows.len() as int;
        assert(same_key(after[at], row.user_id, row.grant_id));
        assert forall|j: int| 0 <= j < after.len() && same_key(#[trigger] after[j], row.user_id, row.grant_id)
            implies j == at by {
            if j != at {
                assert(after[j] == rows[j]);
                assert(same_key(rows[j], row.user_id, row.grant_id));
            }
        }
        assert forall|i: int, j: int|
            0 <= i < after.len() && 0 <= j < after.len() && #[trigger] after[i].user_id
                == #[trigger] after[j].user_id && after[i].grant_id == after[j].grant_id implies i
            == j by {
            if i < at && j < at {
                assert(after[i] == rows[i] && after[j] == rows[j]);
            } else if i < at {
                assert(after[i] == rows[i]);
                assert(same_key(rows[i], row.user_id, row.grant_id));
            } else if j < at {
                assert(after[j] == rows[j]);
                assert(same_key(rows[j], row.user_id, row.grant_id));
            }
        }
    }
}

/// A call changes nothing of any other pair: every other assignment is there
/// afterwards exactly as it was before, and none appears.
pub proof fn lemma_set_grant_leaves_other_pairs(
    rows: Seq<UserGrantView>,
    agent: Seq<char>,
    user_id: i32,
    grant_id: Seq<char>,
    enabled: bool,
    now: Timestamp,
    other_user: i32,
    other_grant: Seq<char>,
)
    requires
        unique_keys(rows),
        other_user != user_id || other_grant != grant_id,
    ensures
        row_of(after_set_grant(rows, agent, user_id, grant_id, enabled, now), other_user, other_grant)
            == row_of(rows, other_user, other_grant),
{
    let existing = row_of(rows, user_id, grant_id);
    let written = assigned(existing, agent, user_id, grant_id, enabled, now);
    lemma_assigned_key(existing, agent, user_id, grant_id, enabled, now);
    lemma_upsert_keeps_unique(rows, written);
    let after = upserted(rows, written);
    if has_row(rows, other_user, other_grant) {
        let at = row_index(rows, other_user, other_grant);
        assert(!same_key(rows[at], user_id, grant_id));
        assert(after[at] == rows[at]);
        assert(same_key(after[at], other_user, other_grant));
        let chosen = row_index(after, other_user, other_grant);
        assert(after[chosen].user_id == after[at].user_id);
    }
    if has_row(after, other_user, other_grant) {
        let chosen = row_index(after, other_user, other_grant);
        if chosen < rows.len() {
            if same_key(rows[chosen], user_id, grant_id) {
                let place = row_index(rows, user_id, grant_id);
                assert(rows[place].user_id == rows[chosen].user_id);
                assert(after[chosen] == overwritten(rows[chosen], written));
            } else {
                assert(after[chosen] == rows[chosen]);
            }
            assert(same_key(rows[chosen], other_user, other_grant));
        } else {
            assert(after[chosen] == written);
        }
    }
}

/// Setting a grant twice in a row to enabled, and then to disabled, never
/// leaves more than the one row of that pair. After the second call the row
/// is enabled, with `enabled_at` set and `disabled_at` empty, and the second
/// call added no row. After the third the row is disabled, with both
/// timestamp fields flipped, and again no row was added.
pub proof fn lemma_set_grant_idempotent(
    rows: Seq<UserGrantView>,
    agent: Seq<char>,
    user_id: i32,
    grant_id: Seq<char>,
    first: Timestamp,
    second: Timestamp,
    third: Timestamp,
)
    requires
        unique_keys(rows),
    ensures
        ({
            let once = after_set_grant(rows, agent, user_id, grant_id, true, first);
            let twice = after_set_grant(once, agent, user_id, grant_id, true, second);
            let off = after_set_grant(twice, agent, user_id, grant_id, false, third);
            &&& exactly_one_row(once, user_id, grant_id)
            &&& exactly_one_row(twice, user_id, grant_id)
            &&& twice.len() == once.len()
            &&& row_of(twice, user_id, grant_id) matches Some(row) && row.enabled && row.enabled_at
                == Some(second) && row.disabled_at is None
            &&& exactly_one_row(off, user_id, grant_id)
            &&& off.len() == twice.len()
            &&& row_of(off, user_id, grant_id) matches Some(row) && !row.enabled && row.enabled_at is None
                && row.disabled_at == Some(third)
        }),
{
    let once = after_set_grant(rows, agent, user_id, grant_id, true, first);
    lemma_set_grant_row(rows, agent, user_id, grant_id, true, first);
    let twice = after_set_grant(once, agent, user_id, grant_id, true, second);
    lemma_set_grant_row(once, agent, user_id, grant_id, true, second);
    let off = after_set_grant(twice, agent, user_id, grant_id, false, third);
    lemma_set_grant_row(twice, agent, user_id, grant_id, false, third);
}

/// One call leaves the keys unique and exactly one row for the pair it names.
/// That row holds the new state, with the timestamp of that state set to `now`
/// and the other one empty. The call adds a row only where the pair had none.
pub proof fn lemma_set_grant_row(
    rows: Seq<UserGrantView>,
    agent: Seq<char>,
    user_id: i32,
    grant_id: Seq<char>,
    enabled: bool,
    now: Timestamp,
)
    requires
        unique_keys(rows),
    ensures
        ({
            let after = after_set_grant(rows, agent, user_id, grant_id, enabled, now);
            &&& unique_keys(after)
            &&& exactly_one_row(after, user_id, grant_id)
            &&& has_row(after, user_id, grant_id)
            &&& has_row(rows, user_id, grant_id) ==> after.len() == rows.len()
            &&& !has_row(rows, user_id, grant_id) ==> after.len() == rows.len() + 1
            &&& row_of(after, user_id, grant_id) matches Some(row) && row.enabled == enabled
                && consistent(row) && row.updated_by == agent && row.updated_at == now && (if enabled {
                row.enabled_at == Some(now)
            } else {
                row.disabled_at == Some(now)
            })
        }),
{
    let existing = row_of(rows, user_id, grant_id);
    let written = assigned(existing, agent, user_id, grant_id, enabled, now);
    lemma_assigned_key(existing, agent, user_id, grant_id, enabled, now);
    lemma_upsert_keeps_unique(rows, written);
    let after = upserted(rows, written);
    let at = choose|i: int|
        0 <= i < after.len() && same_key(#[trigger] after[i], user_id, grant_id) && forall|j: int|
            0 <= j < after.len() && same_key(#[trigger] after[j], user_id, grant_id) ==> j == i;
    assert(has_row(after, user_id, grant_id));
    assert(row_index(after, user_id, grant_id) == at);
    if has_row(rows, user_id, grant_id) {
        let old_at = row_index(rows, user_id, grant_id);
        assert(same_key(after[old_at], user_id, grant_id));
    } else {
        assert(same_key(after[rows.len() as int], user_id, grant_id));
    }
}

} // verus!
