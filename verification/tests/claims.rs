use auth_core::claims::{same_texts, Claims, ClaimsRejection, PRODUCT_IDENTIFIER, TOKEN_TTL};
use auth_core::grants::{Grants, HasGrants, HasGrantsMode};
use auth_core::models::{User, UserGrant};

fn held(grant_id: &str, application_id: &str) -> UserGrant {
    UserGrant {
        grant_id: grant_id.to_string(),
        application_id: application_id.to_string(),
        display_name: grant_id.to_string(),
        description: String::new(),
        enabled: true,
        enabled_at: Some(1),
        disabled_at: None,
        created_by: "seed".to_string(),
        updated_by: "seed".to_string(),
        created_at: 1,
        updated_at: 1,
    }
}

fn user_with(grants: Vec<UserGrant>) -> User {
    User {
        user_id: 42,
        display_name: "Ada".to_string(),
        username: "ada".to_string(),
        enabled: true,
        email: None,
        image_url: None,
        last_login: None,
        created_by: "seed".to_string(),
        updated_by: "seed".to_string(),
        created_at: 1,
        updated_at: 1,
        grants,
    }
}

fn claims(issuer: &str, issued_at: u64, expires: u64) -> Claims {
    Claims {
        user_id: 1,
        issuer: issuer.to_string(),
        grants: vec![],
        apps: vec![],
        issued_at,
        expires,
    }
}

#[test]
fn the_constants_are_fixed() {
    assert_eq!(PRODUCT_IDENTIFIER, "dev.thmsn.auth.rest");
    assert_eq!(TOKEN_TTL, 24 * 60 * 60);
}

#[test]
fn issue_at_snapshots_the_user() {
    let user = user_with(vec![
        held("a.read", "a"),
        held("a.write", "a"),
        held("b.read", "b"),
        held("a.admin", "a"),
    ]);
    let claims = Claims::issue_at(&user, 1000);
    assert_eq!(
        claims,
        Claims {
            user_id: 42,
            issuer: "dev.thmsn.auth.rest".to_string(),
            grants: vec![
                "a.read".to_string(),
                "a.write".to_string(),
                "b.read".to_string(),
                "a.admin".to_string()
            ],
            apps: vec!["a".to_string(), "b".to_string()],
            issued_at: 1000,
            expires: 87400,
        }
    );
}

#[test]
fn issue_at_drops_repeated_grants() {
    let user = user_with(vec![held("g", "x"), held("h", "y"), held("g", "x"), held("g", "z")]);
    let claims = Claims::issue_at(&user, 0);
    assert_eq!(claims.grants, vec!["g".to_string(), "h".to_string()]);
    assert_eq!(
        claims.apps,
        vec!["x".to_string(), "y".to_string(), "z".to_string()]
    );
    assert_eq!(claims.issued_at, 0);
    assert_eq!(claims.expires, 86400);
}

#[test]
fn issue_at_without_grants() {
    let claims = Claims::issue_at(&user_with(vec![]), 5);
    assert!(claims.grants.is_empty());
    assert!(claims.apps.is_empty());
}

#[test]
fn issue_at_the_last_moment_that_fits() {
    let claims = Claims::issue_at(&user_with(vec![]), u64::MAX - 86400);
    assert_eq!(claims.expires, u64::MAX);
}

#[test]
fn for_user_reads_the_clock() {
    let claims = Claims::for_user(&user_with(vec![held("g", "x")]));
    assert!(claims.issued_at > 1_600_000_000);
    assert_eq!(claims.expires, claims.issued_at + 86400);
    assert_eq!(claims.user_id, 42);
    assert_eq!(claims.issuer, PRODUCT_IDENTIFIER);
    assert_eq!(claims.grants, vec!["g".to_string()]);
    assert_eq!(claims.validate_at(claims.issued_at), Ok(()));
}

#[test]
fn claims_are_valid_through_the_expiry() {
    let claims = claims(PRODUCT_IDENTIFIER, 1000, 87400);
    assert_eq!(claims.validate_at(1000), Ok(()));
    assert_eq!(claims.validate_at(5000), Ok(()));
    assert_eq!(claims.validate_at(87400), Ok(()));
    assert_eq!(claims.validate_at(87401), Err(ClaimsRejection::Expired));
    assert_eq!(claims.validate_at(u64::MAX), Err(ClaimsRejection::Expired));
}

#[test]
fn claims_are_not_valid_before_they_are_issued() {
    let claims = claims(PRODUCT_IDENTIFIER, 1000, 87400);
    assert_eq!(claims.validate_at(999), Err(ClaimsRejection::NotYetValid));
    assert_eq!(claims.validate_at(0), Err(ClaimsRejection::NotYetValid));
}

#[test]
fn a_foreign_issuer_is_rejected_first() {
    assert_eq!(
        claims("ME!", 1000, 87400).validate_at(5000),
        Err(ClaimsRejection::IssuerMismatch)
    );
    assert_eq!(
        claims("ME!", 1000, 87400).validate_at(0),
        Err(ClaimsRejection::IssuerMismatch)
    );
    assert_eq!(
        claims("ME!", 1000, 87400).validate_at(90000),
        Err(ClaimsRejection::IssuerMismatch)
    );
    assert_eq!(
        claims("dev.thmsn.auth.REST", 1000, 87400).validate_at(5000),
        Err(ClaimsRejection::IssuerMismatch)
    );
    assert_eq!(
        claims("", 1000, 87400).validate_at(5000),
        Err(ClaimsRejection::IssuerMismatch)
    );
}

#[test]
fn issue_before_expiry_is_checked_before_expiry() {
    // Issued after it expires: at a time in between, the time of issue is what fails.
    assert_eq!(
        claims(PRODUCT_IDENTIFIER, 500, 100).validate_at(300),
        Err(ClaimsRejection::NotYetValid)
    );
}

#[test]
fn claims_bear_their_grants() {
    let claims = Claims {
        user_id: 1,
        issuer: PRODUCT_IDENTIFIER.to_string(),
        grants: vec![
            "dev.thmsn.auth.user.create".to_string(),
            "dev.thmsn.auth.user.list".to_string(),
            "some.unknown.grant".to_string(),
        ],
        apps: vec![],
        issued_at: 0,
        expires: 1,
    };
    assert!(claims.has_grants(&[Grants::UserCreate]));
    assert!(claims.has_grants(&[Grants::UserCreate, Grants::UserList]));
    assert!(!claims.has_grants(&[Grants::UserCreate, Grants::UserDelete]));
    assert!(claims.has_grants_pro(&[Grants::UserDelete, Grants::UserList], HasGrantsMode::Or));
    assert!(!claims.has_grants_pro(&[Grants::UserDelete, Grants::GrantGet], HasGrantsMode::Or));
    assert!(claims.has_grants(&[]));
    assert!(!claims.has_grants_pro(&[], HasGrantsMode::Or));
    assert!(claims.get_grants().contains("some.unknown.grant"));
    assert!(!claims.get_grants().contains("dev.thmsn.auth.user.delete"));
}

#[test]
fn issue_at_leaves_disabled_grants_out() {
    let mut off = held("b.read", "b");
    off.enabled = false;
    off.enabled_at = None;
    off.disabled_at = Some(2);
    let mut off_again = held("c.read", "c");
    off_again.enabled = false;
    let user = user_with(vec![held("a.read", "a"), off, held("a.write", "a"), off_again]);
    let claims = Claims::issue_at(&user, 1000);
    assert_eq!(claims.grants, vec!["a.read".to_string(), "a.write".to_string()]);
    assert_eq!(claims.apps, vec!["a".to_string()]);
    assert!(!claims.get_grants().contains("b.read"));
    assert!(!claims.get_grants().contains("c.read"));
}

#[test]
fn a_grant_held_enabled_and_disabled_is_claimed_once() {
    let mut off = held("g", "x");
    off.enabled = false;
    let user = user_with(vec![off, held("g", "y")]);
    let claims = Claims::issue_at(&user, 0);
    assert_eq!(claims.grants, vec!["g".to_string()]);
    assert_eq!(claims.apps, vec!["y".to_string()]);
}

#[test]
fn claims_are_the_same_where_every_field_is() {
    let base = Claims {
        user_id: 1,
        issuer: "i".to_string(),
        grants: vec!["a".to_string(), "b".to_string()],
        apps: vec!["x".to_string()],
        issued_at: 2,
        expires: 3,
    };
    assert!(base.same_as(&base.clone()));
    assert!(!base.same_as(&Claims { user_id: 2, ..base.clone() }));
    assert!(!base.same_as(&Claims { issuer: "I".to_string(), ..base.clone() }));
    assert!(!base.same_as(&Claims { issued_at: 3, ..base.clone() }));
    assert!(!base.same_as(&Claims { expires: 4, ..base.clone() }));
    assert!(!base.same_as(&Claims {
        grants: vec!["b".to_string(), "a".to_string()],
        ..base.clone()
    }));
    assert!(!base.same_as(&Claims {
        grants: vec!["a".to_string()],
        ..base.clone()
    }));
    assert!(!base.same_as(&Claims { apps: vec![], ..base.clone() }));
    assert!(!base.same_as(&Claims {
        apps: vec!["x\u{301}".to_string()],
        ..base.clone()
    }));
}

#[test]
fn lists_are_the_same_where_they_hold_the_same_in_order() {
    let list = |items: &[&str]| items.iter().map(|item| item.to_string()).collect::<Vec<_>>();
    assert!(same_texts(&list(&[]), &list(&[])));
    assert!(same_texts(&list(&["a", "\u{e9}"]), &list(&["a", "\u{e9}"])));
    assert!(!same_texts(&list(&["a", "\u{e9}"]), &list(&["a", "e\u{301}"])));
    assert!(!same_texts(&list(&["a"]), &list(&["a", ""])));
    assert!(!same_texts(&list(&["ab"]), &list(&["a", "b"])));
    assert!(!same_texts(&list(&["a", "b"]), &list(&["b", "a"])));
}
