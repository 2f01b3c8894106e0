use auth_core::claims::Claims;
use auth_core::dto::{
    ApplicationDto, GrantDetailDto, GrantDto, UserDetailDto, UserDto, UserGrantDetailDto,
    UserGrantDto,
};
use auth_core::error::{RepositoryError, UserError};
use auth_core::hasher::Hasher;
use auth_core::login::{login, login_at, LoginPayload, LoginResponse};
use auth_core::services::ApiServices;
use auth_core::token::Jwt;

// "password" under a low memory cost, so that a test stays quick.
const STORED_HASH: &str =
    "$argon2id$v=19$m=256,t=2,p=1$c29tZXNhbHQ$nf65EOgLrQMR/uIPnA4rEsF5h7TKyQwu9U1bMCHGi/4";

fn services() -> ApiServices {
    ApiServices {
        hasher: Hasher::with_material("filler", "c29tZXNhbHQ".to_string()).unwrap(),
        jwt: Jwt::new("key").unwrap(),
    }
}

fn assigned(grant_id: &str, application_id: &str, enabled: bool) -> UserGrantDetailDto {
    UserGrantDetailDto {
        user_grant: UserGrantDto {
            user_id: 7,
            grant_id: grant_id.to_string(),
            enabled,
            enabled_at: if enabled { Some(3) } else { None },
            disabled_at: if enabled { None } else { Some(3) },
            created_by: "seed".to_string(),
            updated_by: "seed".to_string(),
            created_at: 2,
            updated_at: 3,
        },
        grant: GrantDetailDto {
            grant: GrantDto {
                grant_id: grant_id.to_string(),
                application_id: application_id.to_string(),
                display_name: "G".to_string(),
                description: "g".to_string(),
                created_by: "seed".to_string(),
                updated_by: "seed".to_string(),
                created_at: 1,
                updated_at: 1,
            },
            application: ApplicationDto {
                application_id: application_id.to_string(),
                display_name: "A".to_string(),
                description: "a".to_string(),
                created_by: "seed".to_string(),
                updated_by: "seed".to_string(),
                created_at: 1,
                updated_at: 1,
            },
        },
    }
}

fn stored_user() -> UserDetailDto {
    UserDetailDto {
        user: UserDto {
            user_id: 7,
            display_name: "Ada".to_string(),
            username: "ada".to_string(),
            password: STORED_HASH.to_string(),
            enabled: true,
            email: Some("ada@example.org".to_string()),
            image_url: None,
            last_login: None,
            created_by: "seed".to_string(),
            updated_by: "seed".to_string(),
            created_at: 1,
            updated_at: 1,
        },
        grants: vec![
            assigned("notes.read", "notes", true),
            assigned("notes.write", "notes", true),
            assigned("mail.read", "mail", true),
        ],
    }
}

fn credentials(password: &str) -> LoginPayload {
    LoginPayload {
        username: "ada".to_string(),
        password: password.to_string(),
    }
}

#[test]
fn the_right_password_gives_user_claims_and_token() {
    let services = services();
    let granted = match login_at(Ok(Some(stored_user())), &services, &credentials("password"), 1000) {
        LoginResponse::Success(granted) => granted,
        other => panic!("expected a successful login, got {:?}", other),
    };
    assert_eq!(granted.user.user_id, 7);
    assert_eq!(granted.user.username, "ada");
    assert_eq!(granted.user.email, Some("ada@example.org".to_string()));
    assert_eq!(granted.user.grants.len(), 3);
    assert_eq!(
        granted.claims,
        Claims {
            user_id: 7,
            issuer: "dev.thmsn.auth.rest".to_string(),
            grants: vec![
                "notes.read".to_string(),
                "notes.write".to_string(),
                "mail.read".to_string()
            ],
            apps: vec!["notes".to_string(), "mail".to_string()],
            issued_at: 1000,
            expires: 87400,
        }
    );
    assert_eq!(services.jwt.verify(&granted.token), Ok(granted.claims.clone()));
    assert_eq!(granted.token, services.jwt.sign(&granted.claims).unwrap());
}

#[test]
fn a_wrong_password_gives_invalid_credentials() {
    let services = services();
    assert_eq!(
        login_at(Ok(Some(stored_user())), &services, &credentials("Password"), 1000),
        LoginResponse::InvalidCredentials
    );
    assert_eq!(
        login_at(Ok(Some(stored_user())), &services, &credentials(""), 1000),
        LoginResponse::InvalidCredentials
    );
}

#[test]
fn an_unknown_user_gives_invalid_credentials() {
    let services = services();
    assert_eq!(
        login_at(Ok(None), &services, &credentials("password"), 1000),
        LoginResponse::InvalidCredentials
    );
    assert_eq!(
        login(Ok(None), &services, &credentials("anything")),
        LoginResponse::InvalidCredentials
    );
}

#[test]
fn a_stored_hash_that_does_not_parse_gives_invalid_credentials() {
    let services = services();
    let mut user = stored_user();
    user.user.password = "password".to_string();
    assert_eq!(
        login_at(Ok(Some(user)), &services, &credentials("password"), 1000),
        LoginResponse::InvalidCredentials
    );
}

#[test]
fn login_issues_for_the_time_of_the_clock() {
    let services = services();
    let granted = match login(Ok(Some(stored_user())), &services, &credentials("password")) {
        LoginResponse::Success(granted) => granted,
        other => panic!("expected a successful login, got {:?}", other),
    };
    assert!(granted.claims.issued_at > 1_600_000_000);
    assert_eq!(granted.claims.expires, granted.claims.issued_at + 86400);
    assert_eq!(services.jwt.verify(&granted.token), Ok(granted.claims));
}

#[test]
fn a_later_login_sees_changed_grants_and_an_issued_token_does_not() {
    let services = services();
    let first = match login_at(Ok(Some(stored_user())), &services, &credentials("password"), 1000) {
        LoginResponse::Success(granted) => granted,
        other => panic!("expected a successful login, got {:?}", other),
    };
    let mut changed = stored_user();
    changed.grants.pop();
    let second = match login_at(Ok(Some(changed)), &services, &credentials("password"), 2000) {
        LoginResponse::Success(granted) => granted,
        other => panic!("expected a successful login, got {:?}", other),
    };
    assert_eq!(second.claims.grants.len(), 2);
    assert_eq!(services.jwt.verify(&first.token).unwrap().grants.len(), 3);
}

#[test]
fn a_failed_lookup_is_reported_with_its_text() {
    let services = services();
    let lookup = || {
        Err(UserError::Database {
            inner_error: RepositoryError::Connection {
                inner_error: "refused".to_string(),
            },
        })
    };
    match login_at(lookup(), &services, &credentials("password"), 1000) {
        LoginResponse::Failed(error) => assert_eq!(error.message(), "Connection error: refused"),
        other => panic!("expected a failure, got {:?}", other),
    }
    match login(lookup(), &services, &credentials("")) {
        LoginResponse::Failed(error) => assert_eq!(error.message(), "Connection error: refused"),
        other => panic!("expected a failure, got {:?}", other),
    }
}

#[test]
fn a_disabled_grant_is_not_signed_into_the_token() {
    let services = services();
    let mut user = stored_user();
    user.grants.push(assigned("mail.send", "mail", false));
    user.grants.push(assigned("notes.write", "notes", false));
    user.grants.push(assigned("admin.all", "admin", false));
    let granted = match login_at(Ok(Some(user)), &services, &credentials("password"), 1000) {
        LoginResponse::Success(granted) => granted,
        other => panic!("expected a successful login, got {:?}", other),
    };
    assert_eq!(
        granted.claims.grants,
        vec!["notes.read".to_string(), "mail.read".to_string()]
    );
    assert_eq!(
        granted.claims.apps,
        vec!["notes".to_string(), "mail".to_string()]
    );
    let read = services.jwt.verify(&granted.token).unwrap();
    assert!(!read.grants.contains(&"mail.send".to_string()));
    assert!(!read.grants.contains(&"notes.write".to_string()));
    assert!(!read.grants.contains(&"admin.all".to_string()));
    assert!(!read.apps.contains(&"admin".to_string()));
}

#[test]
fn a_user_without_enabled_grants_gets_empty_claims() {
    let services = services();
    let mut user = stored_user();
    user.grants = vec![assigned("notes.read", "notes", false)];
    let granted = match login_at(Ok(Some(user)), &services, &credentials("password"), 1000) {
        LoginResponse::Success(granted) => granted,
        other => panic!("expected a successful login, got {:?}", other),
    };
    assert!(granted.claims.grants.is_empty());
    assert!(granted.claims.apps.is_empty());
}
