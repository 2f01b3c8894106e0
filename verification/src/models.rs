//! Users as the service presents them: the account and the grants it holds.

use vstd::prelude::*;
use vstd::hash_map::StringHashMap;
use crate::clock::Timestamp;
use crate::dto::{
    ApplicationDetailDto, ApplicationDto, GrantDetailDto, GrantDto, UserDetailDto, UserDto,
    UserGrantDetailDto,
};

verus! {

/// A grant held by a user, with the application that owns the grant. The
/// state and audit fields are those of the assignment, not of the grant.
#[derive(Clone, Debug, PartialEq, Eq)]
pub struct UserGrant {
    pub grant_id: String,
    pub application_id: String,
    pub display_name: String,
    pub description: String,
    pub enabled: bool,
    pub enabled_at: Option<Timestamp>,
    pub disabled_at: Option<Timestamp>,
    pub created_by: String,
    pub updated_by: String,
    pub created_at: Timestamp,
    pub updated_at: Timestamp,
}

/// A user and the grants it holds. The password is not part of it.
#[derive(Clone, Debug, PartialEq, Eq)]
pub struct User {
    pub user_id: i32,
    pub display_name: String,
    pub username: String,
    pub enabled: bool,
    pub email: Option<String>,
    pub image_url: Option<String>,
    pub last_login: Option<Timestamp>,
    pub created_by: String,
    pub updated_by: String,
    pub created_at: Timestamp,
    pub updated_at: Timestamp,
    pub grants: Vec<UserGrant>,
}

/// The grant identifiers of a list of held grants, in order.
pub open spec fn grant_ids(grants: Seq<UserGrant>) -> Seq<Seq<char>> {
    Seq::new(grants.len(), |i: int| grants[i].grant_id@)
}

/// The identifiers of the applications that own the grants of a list, in order.
pub open spec fn application_ids(grants: Seq<UserGrant>) -> Seq<Seq<char>> {
    Seq::new(grants.len(), |i: int| grants[i].application_id@)
}

/// The grants of a list that are enabled, in order.
pub open spec fn active(grants: Seq<UserGrant>) -> Seq<UserGrant>
    decreases grants.len(),
{
    if grants.len() == 0 {
        Seq::empty()
    } else if grants.last().enabled {
        active(grants.drop_last()).push(grants.last())
    } else {
        active(grants.drop_last())
    }
}

/// The active grants of a list are its enabled entries and no others.
pub proof fn lemma_active(grants: Seq<UserGrant>)
    ensures
        active(grants).len() <= grants.len(),
        forall|i: int|
            0 <= i < active(grants).len() ==> (#[trigger] active(grants)[i]).enabled && grants.contains(
                active(grants)[i],
            ),
        forall|j: int| 0 <= j < grants.len() && (#[trigger] grants[j]).enabled ==> active(grants).contains(grants[j]),
        (forall|j: int| 0 <= j < grants.len() ==> (#[trigger] grants[j]).enabled) ==> active(grants) == grants,
    decreases grants.len(),
{
    if grants.len() > 0 {
        let front = grants.drop_last();
        lemma_active(front);
        let before = active(front);
        let after = active(grants);
        assert forall|i: int| 0 <= i < after.len() implies (#[trigger] after[i]).enabled && grants.contains(
            after[i],
        ) by {
            if i < before.len() {
                assert(after[i] == before[i]);
                let j = choose|j: int| 0 <= j < front.len() && front[j] == before[i];
                assert(grants[j] == after[i]);
            } else {
                assert(grants[grants.len() - 1] == after[i]);
            }
        }
        assert forall|j: int| 0 <= j < grants.len() && (#[trigger] grants[j]).enabled implies after.contains(
            grants[j],
        ) by {
            if j < front.len() {
                assert(front[j] == grants[j]);
                let i = choose|i: int| 0 <= i < before.len() && before[i] == front[j];
                assert(after[i] == grants[j]);
            } else {
                assert(after[after.len() - 1] == grants[j]);
            }
        }
        if forall|j: int| 0 <= j < grants.len() ==> (#[trigger] grants[j]).enabled {
            assert forall|j: int| 0 <= j < front.len() implies (#[trigger] front[j]).enabled by {
                assert(front[j] == grants[j]);
            }
            assert(grants[grants.len() - 1].enabled);
            assert(after =~= grants);
        }
    } else {
        assert(active(grants) =~= grants);
    }
}

/// The grant that a user holds by an assignment: the grant's description and
/// owner, with the state and the audit fields of the assignment.
pub open spec fn held_grant(detail: UserGrantDetailDto) -> UserGrant {
    UserGrant {
        grant_id: detail.grant.grant.grant_id,
        application_id: detail.grant.application.application_id,
        display_name: detail.grant.grant.display_name,
        description: detail.grant.grant.description,
        enabled: detail.user_grant.enabled,
        enabled_at: detail.user_grant.enabled_at,
        disabled_at: detail.user_grant.disabled_at,
        created_by: detail.user_grant.created_by,
        updated_by: detail.user_grant.updated_by,
        created_at: detail.user_grant.created_at,
        updated_at: detail.user_grant.updated_at,
    }
}

/// Whether some entry of `grants` is the grant `grant_id`.
pub open spec fn holds_grant(grants: Seq<UserGrant>, grant_id: Seq<char>) -> bool {
    exists|i: int| 0 <= i < grants.len() && (#[trigger] grants[i]).grant_id@ == grant_id
}

/// The place of the grant `grant_id` in `grants`, where it is held.
pub open spec fn grant_position(grants: Seq<UserGrant>, grant_id: Seq<char>) -> int {
    choose|i: int| 0 <= i < grants.len() && (#[trigger] grants[i]).grant_id@ == grant_id
}

/// No two entries are the same grant.
pub open spec fn distinct_grants(grants: Seq<UserGrant>) -> bool {
    forall|i: int, j: int|
        0 <= i < grants.len() && 0 <= j < grants.len() && (#[trigger] grants[i]).grant_id@ == (
        #[trigger] grants[j]).grant_id@ ==> i == j
}

/// The grants of a list of assignments, keyed by grant: each grant stands
/// once, at the place of its first assignment, and as its last assignment
/// says.
pub open spec fn keyed_grants(details: Seq<UserGrantDetailDto>) -> Seq<UserGrant>
    decreases details.len(),
{
    if details.len() == 0 {
        Seq::empty()
    } else {
        let before = keyed_grants(details.drop_last());
        let grant = held_grant(details.last());
        if holds_grant(before, grant.grant_id@) {
            before.update(grant_position(before, grant.grant_id@), grant)
        } else {
            before.push(grant)
        }
    }
}

/// In a list keyed by grant no grant stands twice.
pub proof fn lemma_keyed_grants_distinct(details: Seq<UserGrantDetailDto>)
    ensures
        distinct_grants(keyed_grants(details)),
    decreases details.len(),
{
    if details.len() > 0 {
        lemma_keyed_grants_distinct(details.drop_last());
        let before = keyed_grants(details.drop_last());
        let grant = held_grant(details.last());
        let after = keyed_grants(details);
        if holds_grant(before, grant.grant_id@) {
            let at = grant_position(before, grant.grant_id@);
            assert forall|i: int, j: int|
                0 <= i < after.len() && 0 <= j < after.len() && (#[trigger] after[i]).grant_id@ == (
                #[trigger] after[j]).grant_id@ implies i == j by {
                assert(after[i].grant_id@ == before[i].grant_id@);
                assert(after[j].grant_id@ == before[j].grant_id@);
            }
        } else {
            assert forall|i: int, j: int|
                0 <= i < after.len() && 0 <= j < after.len() && (#[trigger] after[i]).grant_id@ == (
                #[trigger] after[j]).grant_id@ implies i == j by {
                if i < before.len() && j < before.len() {
                    assert(after[i] == before[i] && after[j] == before[j]);
                } else if i < before.len() {
                    assert(after[i] == before[i]);
                } else if j < before.len() {
                    assert(after[j] == before[j]);
                }
            }
        }
    }
}

impl UserGrant {
    /// The grant that a user holds by the assignment `detail`.
    pub fn from_detail(detail: UserGrantDetailDto) -> (grant: UserGrant)
        ensures
            grant == held_grant(detail),
    {
        UserGrant {
            grant_id: detail.grant.grant.grant_id,
            application_id: detail.grant.application.application_id,
            display_name: detail.grant.grant.display_name,
            description: detail.grant.grant.description,
            enabled: detail.user_grant.enabled,
            enabled_at: detail.user_grant.enabled_at,
            disabled_at: detail.user_grant.disabled_at,
            created_by: detail.user_grant.created_by,
            updated_by: detail.user_grant.updated_by,
            created_at: detail.user_grant.created_at,
            updated_at: detail.user_grant.updated_at,
        }
    }
}

/// The user that a stored account presents, with the grants given. The
/// password is dropped.
pub open spec fn presented_user(user: UserDto, grants: Vec<UserGrant>) -> User {
    User {
        user_id: user.user_id,
        display_name: user.display_name,
        username: user.username,
        enabled: user.enabled,
        email: user.email,
        image_url: user.image_url,
        last_login: user.last_login,
        created_by: user.created_by,
        updated_by: user.updated_by,
        created_at: user.created_at,
        updated_at: user.updated_at,
        grants,
    }
}

impl User {
    /// The user that a stored account presents, without grants.
    pub fn from_dto(user: UserDto) -> (presented: User)
        ensures
            presented.grants@.len() == 0,
            presented == presented_user(user, presented.grants),
    {
        User {
            user_id: user.user_id,
            display_name: user.display_name,
            username: user.username,
            enabled: user.enabled,
            email: user.email,
            image_url: user.image_url,
            last_login: user.last_login,
            created_by: user.created_by,
            updated_by: user.updated_by,
            created_at: user.created_at,
            updated_at: user.updated_at,
            grants: Vec::new(),
        }
    }

    /// The user that a stored account presents, with its grants keyed by grant:
    /// where a grant is assigned more than once, the last assignment counts.
    pub fn from_detail(user: UserDetailDto) -> (presented: User)
        ensures
            presented == presented_user(user.user, presented.grants),
            presented.grants@ == keyed_grants(user.grants@),
            distinct_grants(presented.grants@),
    {
        let mut this = User::from_dto(user.user);
        let mut grants: Vec<UserGrant> = Vec::new();
        let mut places: StringHashMap<usize> = StringHashMap::new();
        let ghost all = user.grants@;
        for detail in it: user.grants
            invariant
                it.seq() == all,
                grants@ == keyed_grants(all.take(it.index())),
                distinct_grants(grants@),
                forall|id: Seq<char>| #[trigger] places@.contains_key(id) <==> holds_grant(grants@, id),
                forall|id: Seq<char>| #[trigger]
                    places@.contains_key(id) ==> 0 <= places@[id] < grants@.len() && grants@[places@[id] as int].grant_id@
                        == id,
        {
            let ghost n = it.index();
            proof {
                assert(all.take(n + 1).drop_last() == all.take(n));
                assert(all.take(n + 1).last() == detail);
            }
            let ghost before = grants@;
            let grant = UserGrant::from_detail(detail);
            let found = match places.get(grant.grant_id.as_str()) {
                Some(place) => Some(*place),
                None => None,
            };
            match found {
                Some(place) => {
                    proof {
                        assert(holds_grant(before, grant.grant_id@));
                        let chosen = grant_position(before, grant.grant_id@);
                        assert(before[chosen].grant_id@ == before[place as int].grant_id@);
                    }
                    grants.set(place, grant);
                    proof {
                        assert forall|id: Seq<char>| holds_grant(before, id) <==> holds_grant(grants@, id) by {
                            if holds_grant(before, id) {
                                let i = grant_position(before, id);
                                assert(grants@[i].grant_id@ == id);
                            }
                            if holds_grant(grants@, id) {
                                let i = grant_position(grants@, id);
                                assert(before[i].grant_id@ == id);
                            }
                        }
                        lemma_keyed_grants_distinct(all.take(n + 1));
                    }
                },
                None => {
                    places.insert(grant.grant_id.clone(), grants.len());
                    grants.push(grant);
                    proof {
                        assert(!holds_grant(before, grant.grant_id@));
                        assert forall|id: Seq<char>| #[trigger]
                            places@.contains_key(id) <==> holds_grant(grants@, id) by {
                            if holds_grant(before, id) {
                                let i = grant_position(before, id);
                                assert(grants@[i].grant_id@ == id);
                            }
                            if id == grant.grant_id@ {
                                assert(grants@[before.len() as int].grant_id@ == id);
                            }
                            if holds_grant(grants@, id) {
                                let i = grant_position(grants@, id);
                                if i < before.len() {
                                    assert(before[i].grant_id@ == id);
                                }
                            }
                        }
                        lemma_keyed_grants_distinct(all.take(n + 1));
                    }
                },
            }
        }
        proof {
            assert(all.take(all.len() as int) == all);
        }
        this.grants = grants;
        this
    }
}

/// A grant as its application lists it.
#[derive(Clone, Debug, PartialEq, Eq)]
pub struct ApplicationGrant {
    pub grant_id: String,
    pub display_name: String,
    pub description: String,
    pub created_by: String,
    pub updated_by: String,
    pub created_at: Timestamp,
    pub updated_at: Timestamp,
}

/// An application and the grants it owns.
#[derive(Clone, Debug, PartialEq, Eq)]
pub struct Application {
    pub application_id: String,
    pub display_name: String,
    pub description: String,
    pub created_by: String,
    pub updated_by: String,
    pub created_at: Timestamp,
    pub updated_at: Timestamp,
    pub grants: Vec<ApplicationGrant>,
}

/// An application as one of its grants names it.
#[derive(Clone, Debug, PartialEq, Eq)]
pub struct GrantApplication {
    pub application_id: String,
    pub display_name: String,
    pub description: String,
    pub created_by: String,
    pub updated_by: String,
    pub created_at: Timestamp,
    pub updated_at: Timestamp,
}

/// A grant, with its application where that was read along with it.
#[derive(Clone, Debug, PartialEq, Eq)]
pub struct Grant {
    pub grant_id: String,
    pub application_id: String,
    pub display_name: String,
    pub description: String,
    pub created_by: String,
    pub updated_by: String,
    pub created_at: Timestamp,
    pub updated_at: Timestamp,
    pub application: Option<GrantApplication>,
}

/// A stored grant as its application lists it: the owner is left out.
pub open spec fn listed_grant(grant: GrantDto) -> ApplicationGrant {
    ApplicationGrant {
        grant_id: grant.grant_id,
        display_name: grant.display_name,
        description: grant.description,
        created_by: grant.created_by,
        updated_by: grant.updated_by,
        created_at: grant.created_at,
        updated_at: grant.updated_at,
    }
}

/// A stored application as presented, with the grants given.
pub open spec fn presented_application(application: ApplicationDto, grants: Vec<ApplicationGrant>) -> Application {
    Application {
        application_id: application.application_id,
        display_name: application.display_name,
        description: application.description,
        created_by: application.created_by,
        updated_by: application.updated_by,
        created_at: application.created_at,
        updated_at: application.updated_at,
        grants,
    }
}

/// A stored application as one of its grants names it.
pub open spec fn owning_application(application: ApplicationDto) -> GrantApplication {
    GrantApplication {
        application_id: application.application_id,
        display_name: application.display_name,
        description: application.description,
        created_by: application.created_by,
        updated_by: application.updated_by,
        created_at: application.created_at,
        updated_at: application.updated_at,
    }
}

/// A stored grant as presented, with the application given.
pub open spec fn presented_grant(grant: GrantDto, application: Option<GrantApplication>) -> Grant {
    Grant {
        grant_id: grant.grant_id,
        application_id: grant.application_id,
        display_name: grant.display_name,
        description: grant.description,
        created_by: grant.created_by,
        updated_by: grant.updated_by,
        created_at: grant.created_at,
        updated_at: grant.updated_at,
        application,
    }
}

impl Application {
    /// The application as presented, without grants.
    pub fn from_dto(application: ApplicationDto) -> (presented: Application)
        ensures
            presented.grants@.len() == 0,
            presented == presented_application(application, presented.grants),
    {
        Application {
            application_id: application.application_id,
            display_name: application.display_name,
            description: application.description,
            created_by: application.created_by,
            updated_by: application.updated_by,
            created_at: application.created_at,
            updated_at: application.updated_at,
            grants: Vec::new(),
        }
    }

    /// The application as presented, with its grants in the order given.
    pub fn from_detail(application: ApplicationDetailDto) -> (presented: Application)
        ensures
            presented == presented_application(application.application, presented.grants),
            presented.grants@.len() == application.grants@.len(),
            forall|i: int|
                0 <= i < application.grants@.len() ==> presented.grants@[i] == listed_grant(
                    #[trigger] application.grants@[i],
                ),
    {
        let mut this = Application::from_dto(application.application);
        let mut grants: Vec<ApplicationGrant> = Vec::new();
        let ghost all = application.grants@;
        for grant in it: application.grants
            invariant
                it.seq() == all,
                grants@.len() == it.index(),
                forall|i: int| 0 <= i < it.index() ==> grants@[i] == listed_grant(#[trigger] all[i]),
        {
            grants.push(
                ApplicationGrant {
                    grant_id: grant.grant_id,
                    display_name: grant.display_name,
                    description: grant.description,
                    created_by: grant.created_by,
                    updated_by: grant.updated_by,
                    created_at: grant.created_at,
                    updated_at: grant.updated_at,
                },
            );
        }
        this.grants = grants;
        this
    }
}

impl Grant {
    /// The grant as presented, without its application.
    pub fn from_dto(value: GrantDto) -> (presented: Grant)
        ensures
            presented == presented_grant(value, None),
    {
        Grant {
            grant_id: value.grant_id,
            application_id: value.application_id,
            display_name: value.display_name,
            description: value.description,
            created_by: value.created_by,
            updated_by: value.updated_by,
            created_at: value.created_at,
            updated_at: value.updated_at,
            application: None,
        }
    }

    /// The grant as presented, with its application.
    pub fn from_detail(value: GrantDetailDto) -> (presented: Grant)
        ensures
            presented == presented_grant(value.grant, Some(owning_application(value.application))),
    {
        let mut this = Grant::from_dto(value.grant);
        this.application = Some(
            GrantApplication {
                application_id: value.application.application_id,
                display_name: value.application.display_name,
                description: value.application.description,
                created_by: value.application.created_by,
                updated_by: value.application.updated_by,
                created_at: value.application.created_at,
                updated_at: value.application.updated_at,
            },
        );
        this
    }
}

} // verus!
