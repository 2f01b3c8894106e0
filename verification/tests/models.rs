use auth_core::dto::{
    ApplicationDetailDto, ApplicationDto, AssignmentRow, DtoError, GrantDetailDto, GrantDto,
    UserDetailDto, UserDto, UserGrantDetailDto, UserGrantDto,
};
use auth_core::error::{ApplicationError, UserError};
use auth_core::models::{
    Application, ApplicationGrant, Grant, GrantApplication, User, UserGrant,
};

fn application(id: &str) -> ApplicationDto {
    ApplicationDto {
        application_id: id.to_string(),
        display_name: format!("{} name", id),
        description: format!("{} description", id),
        created_by: "c".to_string(),
        updated_by: "u".to_string(),
        created_at: 1,
        updated_at: 2,
    }
}

fn grant(id: &str, application_id: &str) -> GrantDto {
    GrantDto {
        grant_id: id.to_string(),
        application_id: application_id.to_string(),
        display_name: format!("{} name", id),
        description: format!("{} description", id),
        created_by: "gc".to_string(),
        updated_by: "gu".to_string(),
        created_at: 3,
        updated_at: 4,
    }
}

fn user_grant(grant_id: &str, enabled: bool, at: i64) -> UserGrantDto {
    UserGrantDto {
        user_id: 9,
        grant_id: grant_id.to_string(),
        enabled,
        enabled_at: if enabled { Some(at) } else { None },
        disabled_at: if enabled { None } else { Some(at) },
        created_by: "ac".to_string(),
        updated_by: "au".to_string(),
        created_at: 5,
        updated_at: at,
    }
}

fn detail(grant_id: &str, application_id: &str, enabled: bool, at: i64) -> UserGrantDetailDto {
    UserGrantDetailDto {
        user_grant: user_grant(grant_id, enabled, at),
        grant: GrantDetailDto {
            grant: grant(grant_id, application_id),
            application: application(application_id),
        },
    }
}

fn user() -> UserDto {
    UserDto {
        user_id: 9,
        display_name: "Ada".to_string(),
        username: "ada".to_string(),
        password: "hash".to_string(),
        enabled: true,
        email: Some("ada@example.org".to_string()),
        image_url: None,
        last_login: Some(8),
        created_by: "c".to_string(),
        updated_by: "u".to_string(),
        created_at: 1,
        updated_at: 2,
    }
}

#[test]
fn a_user_is_presented_without_its_password() {
    assert_eq!(
        User::from_dto(user()),
        User {
            user_id: 9,
            display_name: "Ada".to_string(),
            username: "ada".to_string(),
            enabled: true,
            email: Some("ada@example.org".to_string()),
            image_url: None,
            last_login: Some(8),
            created_by: "c".to_string(),
            updated_by: "u".to_string(),
            created_at: 1,
            updated_at: 2,
            grants: vec![],
        }
    );
}

#[test]
fn a_held_grant_joins_grant_and_assignment() {
    assert_eq!(
        UserGrant::from_detail(detail("g", "a", false, 7)),
        UserGrant {
            grant_id: "g".to_string(),
            application_id: "a".to_string(),
            display_name: "g name".to_string(),
            description: "g description".to_string(),
            enabled: false,
            enabled_at: None,
            disabled_at: Some(7),
            created_by: "ac".to_string(),
            updated_by: "au".to_string(),
            created_at: 5,
            updated_at: 7,
        }
    );
}

#[test]
fn grants_are_keyed_by_grant() {
    let presented = User::from_detail(UserDetailDto {
        user: user(),
        grants: vec![
            detail("g", "a", true, 1),
            detail("h", "a", true, 2),
            detail("g", "b", false, 3),
            detail("i", "c", true, 4),
            detail("h", "a", false, 5),
        ],
    });
    assert_eq!(presented.user_id, 9);
    assert_eq!(
        presented.grants,
        vec![
            UserGrant::from_detail(detail("g", "b", false, 3)),
            UserGrant::from_detail(detail("h", "a", false, 5)),
            UserGrant::from_detail(detail("i", "c", true, 4)),
        ]
    );
    let empty = User::from_detail(UserDetailDto {
        user: user(),
        grants: vec![],
    });
    assert_eq!(empty, User::from_dto(user()));
}

#[test]
fn an_application_lists_its_grants() {
    let bare = Application::from_dto(application("a"));
    assert_eq!(bare.application_id, "a");
    assert_eq!(bare.display_name, "a name");
    assert_eq!(bare.description, "a description");
    assert_eq!(bare.created_by, "c");
    assert_eq!(bare.updated_by, "u");
    assert_eq!((bare.created_at, bare.updated_at), (1, 2));
    assert!(bare.grants.is_empty());
    let full = Application::from_detail(ApplicationDetailDto {
        application: application("a"),
        grants: vec![grant("a.x", "a"), grant("a.y", "a")],
    });
    assert_eq!(
        full.grants,
        vec![
            ApplicationGrant {
                grant_id: "a.x".to_string(),
                display_name: "a.x name".to_string(),
                description: "a.x description".to_string(),
                created_by: "gc".to_string(),
                updated_by: "gu".to_string(),
                created_at: 3,
                updated_at: 4,
            },
            ApplicationGrant {
                grant_id: "a.y".to_string(),
                display_name: "a.y name".to_string(),
                description: "a.y description".to_string(),
                created_by: "gc".to_string(),
                updated_by: "gu".to_string(),
                created_at: 3,
                updated_at: 4,
            },
        ]
    );
    assert_eq!(
        Application {
            grants: vec![],
            ..full
        },
        bare
    );
}

#[test]
fn a_grant_names_its_application() {
    let bare = Grant::from_dto(grant("a.x", "a"));
    assert_eq!(bare.grant_id, "a.x");
    assert_eq!(bare.application_id, "a");
    assert_eq!(bare.application, None);
    let full = Grant::from_detail(GrantDetailDto {
        grant: grant("a.x", "a"),
        application: application("a"),
    });
    assert_eq!(
        full.application,
        Some(GrantApplication {
            application_id: "a".to_string(),
            display_name: "a name".to_string(),
            description: "a description".to_string(),
            created_by: "c".to_string(),
            updated_by: "u".to_string(),
            created_at: 1,
            updated_at: 2,
        })
    );
    assert_eq!(
        Grant {
            application: None,
            ..full
        },
        bare
    );
}

#[test]
fn rows_are_built_from_their_columns() {
    assert_eq!(
        UserDto::from_ordered(
            9,
            "Ada".to_string(),
            "ada".to_string(),
            "hash".to_string(),
            1,
            Some("ada@example.org".to_string()),
            None,
            Some(8),
            "c".to_string(),
            "u".to_string(),
            1,
            2
        ),
        Ok(user())
    );
    for column in [-128i8, -1, 1, 2, 127] {
        assert!(
            UserGrantDto::from_ordered(
                9,
                "g".to_string(),
                column,
                Some(1),
                None,
                "ac".to_string(),
                "au".to_string(),
                5,
                1
            )
            .unwrap()
            .enabled
        );
    }
    assert_eq!(
        UserGrantDto::from_ordered(
            9,
            "g".to_string(),
            0,
            None,
            Some(6),
            "ac".to_string(),
            "au".to_string(),
            5,
            6
        ),
        Ok(user_grant("g", false, 6))
    );
    assert_eq!(
        GrantDto::from_ordered(
            "a.x".to_string(),
            "a".to_string(),
            "a.x name".to_string(),
            "a.x description".to_string(),
            "gc".to_string(),
            "gu".to_string(),
            3,
            4
        ),
        Ok(grant("a.x", "a"))
    );
    assert_eq!(
        ApplicationDto::from_ordered(
            "a".to_string(),
            "a name".to_string(),
            "a description".to_string(),
            "c".to_string(),
            "u".to_string(),
            1,
            2
        ),
        Ok(application("a"))
    );
    assert_eq!(DtoError::Unimplemented.message(), "wow!");
    assert_eq!(user().duplicate(), user());
    assert_eq!(user_grant("g", true, 1).duplicate(), user_grant("g", true, 1));
}

#[test]
fn incomplete_rows_are_left_out() {
    let rows = vec![
        AssignmentRow {
            user_grant: user_grant("g", true, 1),
            grant: Some(grant("g", "a")),
            application: Some(application("a")),
        },
        AssignmentRow {
            user_grant: user_grant("h", true, 2),
            grant: None,
            application: Some(application("a")),
        },
        AssignmentRow {
            user_grant: user_grant("i", true, 3),
            grant: Some(grant("i", "b")),
            application: None,
        },
        AssignmentRow {
            user_grant: user_grant("j", false, 4),
            grant: None,
            application: None,
        },
        AssignmentRow {
            user_grant: user_grant("k", true, 5),
            grant: Some(grant("k", "b")),
            application: Some(application("b")),
        },
    ];
    let populated = UserDetailDto::populate(user(), rows);
    assert_eq!(populated.user, user());
    assert_eq!(
        populated.grants,
        vec![detail("g", "a", true, 1), detail("k", "b", true, 5)]
    );
    assert!(UserDetailDto::populate(user(), vec![]).grants.is_empty());
}

#[test]
fn disabled_rows_are_left_out() {
    let row = |grant_id: &str, enabled: bool, at: i64| AssignmentRow {
        user_grant: user_grant(grant_id, enabled, at),
        grant: Some(grant(grant_id, "a")),
        application: Some(application("a")),
    };
    let populated = UserDetailDto::populate(
        user(),
        vec![
            row("g", false, 1),
            row("h", true, 2),
            row("i", false, 3),
            row("j", true, 4),
            row("k", false, 5),
        ],
    );
    assert_eq!(
        populated.grants,
        vec![detail("h", "a", true, 2), detail("j", "a", true, 4)]
    );
    assert!(populated.grants.iter().all(|held| held.user_grant.enabled));
    let none = UserDetailDto::populate(user(), vec![row("g", false, 1), row("h", false, 2)]);
    assert!(none.grants.is_empty());
}

#[test]
fn rows_of_another_user_are_left_out() {
    let mut foreign = user_grant("g", true, 1);
    foreign.user_id = 10;
    let populated = UserDetailDto::populate(
        user(),
        vec![
            AssignmentRow {
                user_grant: foreign,
                grant: Some(grant("g", "a")),
                application: Some(application("a")),
            },
            AssignmentRow {
                user_grant: user_grant("h", true, 2),
                grant: Some(grant("h", "a")),
                application: Some(application("a")),
            },
        ],
    );
    assert_eq!(populated.grants, vec![detail("h", "a", true, 2)]);
}

#[test]
fn an_update_needs_a_change() {
    assert_eq!(
        UserDto::require_changes(None, None, None, None, None),
        Err(UserError::NoChangeRequested)
    );
    assert_eq!(UserDto::require_changes(Some(false), None, None, None, None), Ok(()));
    assert_eq!(UserDto::require_changes(None, Some(""), None, None, None), Ok(()));
    assert_eq!(UserDto::require_changes(None, None, Some("p"), None, None), Ok(()));
    assert_eq!(UserDto::require_changes(None, None, None, Some("e"), None), Ok(()));
    assert_eq!(UserDto::require_changes(None, None, None, None, Some("i")), Ok(()));
    assert_eq!(
        ApplicationDto::require_changes(None, None),
        Err(ApplicationError::NoChangeRequested)
    );
    assert_eq!(ApplicationDto::require_changes(Some("n"), None), Ok(()));
    assert_eq!(ApplicationDto::require_changes(None, Some("d")), Ok(()));
}

#[test]
fn an_update_replaces_what_it_names() {
    let updated = user().updated("agent", Some(false), None, Some("new hash"), None, Some("img"), 50);
    assert_eq!(
        updated,
        UserDto {
            enabled: false,
            password: "new hash".to_string(),
            image_url: Some("img".to_string()),
            updated_by: "agent".to_string(),
            updated_at: 50,
            ..user()
        }
    );
    let renamed = user().updated("agent", None, Some("Countess"), None, Some("c@example.org"), None, 51);
    assert_eq!(
        renamed,
        UserDto {
            display_name: "Countess".to_string(),
            email: Some("c@example.org".to_string()),
            updated_by: "agent".to_string(),
            updated_at: 51,
            ..user()
        }
    );
    let touched = user().updated("agent", None, None, None, None, None, 52);
    assert_eq!(
        touched,
        UserDto {
            updated_by: "agent".to_string(),
            updated_at: 52,
            ..user()
        }
    );
    assert_eq!(
        application("a").updated("agent", Some("n"), None, 9),
        ApplicationDto {
            display_name: "n".to_string(),
            updated_by: "agent".to_string(),
            updated_at: 9,
            ..application("a")
        }
    );
    assert_eq!(
        application("a").updated("agent", None, Some("d"), 9),
        ApplicationDto {
            description: "d".to_string(),
            updated_by: "agent".to_string(),
            updated_at: 9,
            ..application("a")
        }
    );
}

#[test]
fn a_login_is_noted() {
    assert_eq!(
        user().logged_in(77),
        UserDto {
            last_login: Some(77),
            updated_by: "user.set_last_login:9".to_string(),
            updated_at: 77,
            ..user()
        }
    );
}
