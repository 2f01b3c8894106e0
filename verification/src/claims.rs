//! Claims: what a token asserts of one user, and the rules by which a
//! presented set of claims is accepted or rejected.

use vstd::prelude::*;
use crate::clock::unix_now;
use crate::grants::{names_of, GrantSet, Grants, HasGrants};
use crate::models::{active, application_ids, grant_ids, lemma_active, User, UserGrant};
use crate::text::str_eq;

verus! {

/// The issuer that this service writes into its claims and expects in them.
pub const PRODUCT_IDENTIFIER: &'static str = "dev.thmsn.auth.rest";

/// How long a token is valid, in seconds: 24 hours.
pub const TOKEN_TTL: u64 = 86_400;

/// What a token asserts: the user, the issuer, the grants held when the token
/// was issued, the applications that own them, and the time span in which the
/// token is valid. Times are in seconds since the Unix epoch.
#[derive(Clone, Debug, PartialEq, Eq)]
pub struct Claims {
    pub user_id: i32,
    pub issuer: String,
    pub grants: Vec<String>,
    pub apps: Vec<String>,
    pub issued_at: u64,
    pub expires: u64,
}

/// What a `Claims` holds.
pub struct ClaimsView {
    pub user_id: i32,
    pub issuer: Seq<char>,
    pub grants: Seq<Seq<char>>,
    pub apps: Seq<Seq<char>>,
    pub issued_at: u64,
    pub expires: u64,
}

impl View for Claims {
    type V = ClaimsView;

    open spec fn view(&self) -> ClaimsView {
        ClaimsView {
            user_id: self.user_id,
            issuer: self.issuer@,
            grants: names_of(self.grants@),
            apps: names_of(self.apps@),
            issued_at: self.issued_at,
            expires: self.expires,
        }
    }
}

/// Why a set of claims is rejected.
#[derive(Clone, Copy, Debug, PartialEq, Eq)]
pub enum ClaimsRejection {
    /// The issuer is not this service.
    IssuerMismatch,
    /// The claims were issued after the time of the check.
    NotYetValid,
    /// The claims expired before the time of the check.
    Expired,
}

/// The first reason, if any, to reject `claims` at the time `now`. The issuer
/// is checked first, then the time of issue, then the expiry. There is no
/// leeway: claims are valid from `issued_at` to `expires`, both included.
pub open spec fn rejection(claims: ClaimsView, expected_issuer: Seq<char>, now: u64) -> Option<
    ClaimsRejection,
> {
    if claims.issuer != expected_issuer {
        Some(ClaimsRejection::IssuerMismatch)
    } else if claims.issued_at > now {
        Some(ClaimsRejection::NotYetValid)
    } else if claims.expires < now {
        Some(ClaimsRejection::Expired)
    } else {
        None
    }
}

/// The entries of `list` without repetitions, each at the place of its first
/// occurrence.
pub open spec fn distinct(list: Seq<Seq<char>>) -> Seq<Seq<char>>
    decreases list.len(),
{
    if list.len() == 0 {
        Seq::empty()
    } else {
        let before = distinct(list.drop_last());
        if before.contains(list.last()) {
            before
        } else {
            before.push(list.last())
        }
    }
}

/// `distinct` keeps exactly the entries of the list, and keeps none twice.
pub proof fn lemma_distinct(list: Seq<Seq<char>>)
    ensures
        distinct(list).to_set() == list.to_set(),
        distinct(list).no_duplicates(),
        distinct(list).len() <= list.len(),
    decreases list.len(),
{
    if list.len() == 0 {
        assert(distinct(list).to_set() =~= list.to_set());
    } else {
        let front = list.drop_last();
        let before = distinct(front);
        lemma_distinct(front);
        assert(list == front.push(list.last()));
        assert forall|name: Seq<char>| list.to_set().contains(name) <==> front.to_set().contains(name)
            || name == list.last() by {
            if list.to_set().contains(name) {
                let i = choose|i: int| 0 <= i < list.len() && list[i] == name;
                if i < front.len() {
                    assert(front[i] == name);
                }
            }
            if front.to_set().contains(name) {
                let i = choose|i: int| 0 <= i < front.len() && front[i] == name;
                assert(list[i] == name);
            }
            if name == list.last() {
                assert(list[list.len() - 1] == name);
            }
        }
        if before.contains(list.last()) {
            assert(before.to_set().contains(list.last()));
            assert(distinct(list).to_set() =~= list.to_set());
        } else {
            let after = before.push(list.last());
            assert forall|name: Seq<char>| after.to_set().contains(name) <==> before.to_set().contains(name)
                || name == list.last() by {
                if after.to_set().contains(name) {
                    let i = choose|i: int| 0 <= i < after.len() && after[i] == name;
                    if i < before.len() {
                        assert(before[i] == name);
                    }
                }
                if before.to_set().contains(name) {
                    let i = choose|i: int| 0 <= i < before.len() && before[i] == name;
                    assert(after[i] == name);
                }
                if name == list.last() {
                    assert(after[after.len() - 1] == name);
                }
            }
            assert(distinct(list).to_set() =~= list.to_set());
            assert forall|i: int, j: int| 0 <= i < after.len() && 0 <= j < after.len() && i != j implies after[i]
                != after[j] by {
                if i < before.len() && j < before.len() {
                } else if i < before.len() {
                    assert(before.contains(before[i]));
                } else {
                    assert(before.contains(before[j]));
                }
            }
        }
    }
}

/// The claims issued for a user at the time `now`: the user's identifier, this
/// service as issuer, the distinct grants that the user holds enabled, the
/// distinct applications that own them, and a validity of `TOKEN_TTL` seconds
/// from `now`. A grant that is disabled never enters the claims.
pub open spec fn issued(user: User, now: u64) -> ClaimsView {
    issued_for(user.user_id, user.grants@, now)
}

/// The claims issued at the time `now` for the user `user_id` who holds
/// `grants`: of these, the enabled ones count.
pub open spec fn issued_for(user_id: i32, grants: Seq<UserGrant>, now: u64) -> ClaimsView {
    ClaimsView {
        user_id,
        issuer: PRODUCT_IDENTIFIER@,
        grants: distinct(grant_ids(active(grants))),
        apps: distinct(application_ids(active(grants))),
        issued_at: now,
        expires: (now + TOKEN_TTL) as u64,
    }
}

/// Whether two lists hold the same strings in the same order.
pub fn same_texts(first: &Vec<String>, second: &Vec<String>) -> (same: bool)
    ensures
        same == (names_of(first@) == names_of(second@)),
{
    if first.len() != second.len() {
        assert(names_of(first@).len() != names_of(second@).len());
        return false;
    }
    let mut i: usize = 0;
    while i < first.len()
        invariant
            i <= first.len(),
            first.len() == second.len(),
            forall|j: int| 0 <= j < i ==> first@[j]@ == second@[j]@,
        decreases first.len() - i,
    {
        if !str_eq(first[i].as_str(), second[i].as_str()) {
            assert(names_of(first@)[i as int] != names_of(second@)[i as int]);
            return false;
        }
        i += 1;
    }
    assert(names_of(first@) =~= names_of(second@));
    true
}

impl Claims {
    /// Whether these claims and `other` hold the same: the same user, issuer
    /// and times, and the same grants and applications in the same order.
    pub fn same_as(&self, other: &Claims) -> (same: bool)
        ensures
            same == (self@ == other@),
    {
        self.user_id == other.user_id && str_eq(self.issuer.as_str(), other.issuer.as_str())
            && same_texts(&self.grants, &other.grants) && same_texts(&self.apps, &other.apps)
            && self.issued_at == other.issued_at && self.expires == other.expires
    }

    /// The claims of `user` as issued at `now`, for the grants that the user
    /// holds enabled.
    pub fn issue_at(user: &User, now: u64) -> (claims: Claims)
        requires
            now + TOKEN_TTL <= u64::MAX,
        ensures
            claims@ == issued(*user, now),
            claims@.grants.to_set() == grant_ids(active(user.grants@)).to_set(),
            claims@.apps.to_set() == application_ids(active(user.grants@)).to_set(),
            claims@.grants.no_duplicates(),
            claims@.apps.no_duplicates(),
            rejection(claims@, PRODUCT_IDENTIFIER@, now) is None,
    {
        let mut grants: Vec<String> = Vec::new();
        let mut seen_grants = GrantSet::new();
        let mut apps: Vec<String> = Vec::new();
        let mut seen_apps = GrantSet::new();
        let ghost held = user.grants@;
        let mut i: usize = 0;
        while i < user.grants.len()
            invariant
                i <= user.grants.len(),
                held == user.grants@,
                names_of(grants@) == distinct(grant_ids(active(held.take(i as int)))),
                names_of(apps@) == distinct(application_ids(active(held.take(i as int)))),
                seen_grants@ == grant_ids(active(held.take(i as int))).to_set(),
                seen_apps@ == application_ids(active(held.take(i as int))).to_set(),
            decreases user.grants.len() - i,
        {
            let grant = &user.grants[i];
            let ghost before = active(held.take(i as int));
            proof {
                assert(held.take(i + 1).drop_last() == held.take(i as int));
                assert(held.take(i + 1).last() == *grant);
            }
            if grant.enabled {
                proof {
                    let after = active(held.take(i + 1));
                    assert(after == before.push(*grant));
                    assert(grant_ids(after) =~= grant_ids(before).push(grant.grant_id@));
                    assert(application_ids(after) =~= application_ids(before).push(grant.application_id@));
                    assert(grant_ids(after).drop_last() =~= grant_ids(before));
                    assert(application_ids(after).drop_last() =~= application_ids(before));
                    lemma_distinct(grant_ids(before));
                    lemma_distinct(application_ids(before));
                    grant_ids(before).lemma_push_to_set_commute(grant.grant_id@);
                    application_ids(before).lemma_push_to_set_commute(grant.application_id@);
                }
                if !seen_grants.contains(grant.grant_id.as_str()) {
                    grants.push(grant.grant_id.clone());
                    assert(names_of(grants@) =~= distinct(grant_ids(before)).push(grant.grant_id@));
                }
                seen_grants.insert(grant.grant_id.clone());
                if !seen_apps.contains(grant.application_id.as_str()) {
                    apps.push(grant.application_id.clone());
                    assert(names_of(apps@) =~= distinct(application_ids(before)).push(
                        grant.application_id@,
                    ));
                }
                seen_apps.insert(grant.application_id.clone());
            }
            i += 1;
        }
        proof {
            assert(held.take(user.grants.len() as int) == held);
            lemma_distinct(grant_ids(active(held)));
            lemma_distinct(application_ids(active(held)));
        }
        Claims {
            user_id: user.user_id,
            issuer: PRODUCT_IDENTIFIER.to_owned(),
            grants,
            apps,
            issued_at: now,
            expires: now + TOKEN_TTL,
        }
    }

    /// The claims of `user` as issued at the time the clock shows.
    pub fn for_user(user: &User) -> (claims: Claims)
        ensures
            claims@ == issued(*user, claims.issued_at),
            claims.issued_at + TOKEN_TTL <= u64::MAX,
            claims@.grants.to_set() == grant_ids(active(user.grants@)).to_set(),
            claims@.apps.to_set() == application_ids(active(user.grants@)).to_set(),
    {
        let now = unix_now();
        Claims::issue_at(user, now as u64)
    }

    /// Accepts or rejects these claims at the time `now`, with the first
    /// reason that applies.
    pub fn validate_at(&self, now: u64) -> (verdict: Result<(), ClaimsRejection>)
        ensures
            verdict == match rejection(self@, PRODUCT_IDENTIFIER@, now) {
                Some(reason) => Err::<(), ClaimsRejection>(reason),
                None => Ok::<(), ClaimsRejection>(()),
            },
            self.issuer@ != PRODUCT_IDENTIFIER@ ==> verdict == Err::<(), ClaimsRejection>(
                ClaimsRejection::IssuerMismatch,
            ),
            self.issuer@ == PRODUCT_IDENTIFIER@ && self.issued_at <= now && self.expires == now ==> verdict
                is Ok,
            self.issuer@ == PRODUCT_IDENTIFIER@ && self.issued_at <= now && self.expires + 1 == now
                ==> verdict == Err::<(), ClaimsRejection>(ClaimsRejection::Expired),
    {
        if !str_eq(self.issuer.as_str(), PRODUCT_IDENTIFIER) {
            Err(ClaimsRejection::IssuerMismatch)
        } else if self.issued_at > now {
            Err(ClaimsRejection::NotYetValid)
        } else if self.expires < now {
            Err(ClaimsRejection::Expired)
        } else {
            Ok(())
        }
    }
}

/// Claims are valid at the very second they expire, and rejected as expired
/// one second later.
pub proof fn lemma_expiry_boundary(claims: ClaimsView, expected_issuer: Seq<char>, now: u64)
    requires
        claims.issuer == expected_issuer,
        claims.issued_at <= now,
    ensures
        claims.expires == now ==> rejection(claims, expected_issuer, now) is None,
        claims.expires == now - 1 ==> rejection(claims, expected_issuer, now) == Some(
            ClaimsRejection::Expired,
        ),
{
}

/// Claims of another issuer are rejected for that reason, whatever their other
/// fields hold and whatever the time.
pub proof fn lemma_issuer_mismatch(claims: ClaimsView, expected_issuer: Seq<char>, now: u64)
    requires
        claims.issuer != expected_issuer,
    ensures
        rejection(claims, expected_issuer, now) == Some(ClaimsRejection::IssuerMismatch),
{
}

/// Claims are accepted exactly from the time of issue to the expiry, both
/// included, and only from the expected issuer.
pub proof fn lemma_accepted_span(claims: ClaimsView, expected_issuer: Seq<char>, now: u64)
    ensures
        rejection(claims, expected_issuer, now) is None <==> claims.issuer == expected_issuer
            && claims.issued_at <= now <= claims.expires,
{
}

/// The claims issued for a user hold the user's identifier, and as grants and
/// applications exactly those that the user holds enabled, each once. Where
/// every grant of the user is enabled, these are all the user's grants.
pub proof fn lemma_issued_holds_the_inputs(user: User, now: u64)
    ensures
        issued(user, now).user_id == user.user_id,
        issued(user, now).grants.to_set() == grant_ids(active(user.grants@)).to_set(),
        issued(user, now).apps.to_set() == application_ids(active(user.grants@)).to_set(),
        issued(user, now).grants.no_duplicates(),
        issued(user, now).apps.no_duplicates(),
        (forall|i: int| 0 <= i < user.grants@.len() ==> (#[trigger] user.grants@[i]).enabled) ==> issued(
            user,
            now,
        ).grants.to_set() == grant_ids(user.grants@).to_set() && issued(user, now).apps.to_set()
            == application_ids(user.grants@).to_set(),
{
    lemma_distinct(grant_ids(active(user.grants@)));
    lemma_distinct(application_ids(active(user.grants@)));
    lemma_active(user.grants@);
}

/// A grant stands in the claims issued for a user only where the user holds
/// it enabled: a grant that the user holds disabled only, or not at all, is
/// not in them.
pub proof fn lemma_issued_only_enabled(user: User, now: u64, grant_id: Seq<char>)
    ensures
        issued(user, now).grants.contains(grant_id) <==> exists|i: int|
            0 <= i < user.grants@.len() && (#[trigger] user.grants@[i]).enabled && user.grants@[i].grant_id@
                == grant_id,
{
    let held = user.grants@;
    let enabled = active(held);
    let ids = grant_ids(enabled);
    lemma_distinct(ids);
    lemma_active(held);
    if issued(user, now).grants.contains(grant_id) {
        assert(distinct(ids).to_set().contains(grant_id));
        assert(ids.to_set().contains(grant_id));
        let k = choose|k: int| 0 <= k < ids.len() && ids[k] == grant_id;
        assert(enabled[k].enabled && held.contains(enabled[k]));
        let i = choose|i: int| 0 <= i < held.len() && held[i] == enabled[k];
        assert(held[i].enabled && held[i].grant_id@ == grant_id);
    }
    if exists|i: int| 0 <= i < held.len() && (#[trigger] held[i]).enabled && held[i].grant_id@ == grant_id {
        let i = choose|i: int| 0 <= i < held.len() && (#[trigger] held[i]).enabled && held[i].grant_id@ == grant_id;
        assert(enabled.contains(held[i]));
        let k = choose|k: int| 0 <= k < enabled.len() && enabled[k] == held[i];
        assert(ids[k] == grant_id);
        assert(ids.to_set().contains(grant_id));
        assert(distinct(ids).to_set().contains(grant_id));
        assert(distinct(ids).contains(grant_id));
    }
}

impl HasGrants for Claims {
    type Grants = Grants;

    open spec fn held(&self) -> Set<Seq<char>> {
        self@.grants.to_set()
    }

    fn get_grants(&self) -> (set: GrantSet) {
        GrantSet::from_names(&self.grants)
    }
}

} // verus!
