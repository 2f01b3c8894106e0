use auth_core::decimal::{push_decimal, push_digits, to_decimal};
use auth_core::dto::DtoError;
use auth_core::error::{ApplicationError, GrantError, RepositoryError, UserError};
use auth_core::services::{ApiServices, ApiServicesError};

fn s(text: &str) -> String {
    text.to_string()
}

#[test]
fn integers_are_written_in_decimal() {
    assert_eq!(to_decimal(0), "0");
    assert_eq!(to_decimal(7), "7");
    assert_eq!(to_decimal(10), "10");
    assert_eq!(to_decimal(-1), "-1");
    assert_eq!(to_decimal(1203), "1203");
    assert_eq!(to_decimal(-9000), "-9000");
    assert_eq!(to_decimal(i32::MAX), "2147483647");
    assert_eq!(to_decimal(i32::MIN), "-2147483648");
    for number in [-100_000, -99_999, -11, 99, 100, 101, 65_536, 1_000_000_007] {
        assert_eq!(to_decimal(number), number.to_string());
    }
    let mut text = s("n=");
    push_decimal(&mut text, -42);
    push_digits(&mut text, 0);
    push_digits(&mut text, u64::MAX);
    assert_eq!(text, "n=-42018446744073709551615");
}

#[test]
fn repository_errors_have_their_messages() {
    let cases = [
        (
            RepositoryError::ConnectionAcquire { inner_error: s("e") },
            "Failed to acquire a database connection: e",
        ),
        (
            RepositoryError::TryInto {
                from: s("a"),
                to: s("b"),
                inner_error: s("e"),
            },
            "Failed to convert 'a' to 'b': e",
        ),
        (RepositoryError::Connection { inner_error: s("e") }, "Connection error: e"),
        (RepositoryError::Execute { inner_error: s("e") }, "Execution error: e"),
        (RepositoryError::Query { inner_error: s("e") }, "Query error: e"),
        (
            RepositoryError::ConvertFromU64 { ty: s("T") },
            "Type T cannot be converted from u64",
        ),
        (RepositoryError::UnpackInsertId, "Failed to unpack last_insert_id"),
        (
            RepositoryError::UpdateGetPrimaryKey,
            "Failed to get primary key from model",
        ),
        (RepositoryError::RecordNotFound { context: s("c") }, "Not found: c"),
        (
            RepositoryError::AttributeNotSet { attribute: s("a") },
            "Attribute a is not set",
        ),
        (RepositoryError::Custom { context: s("c") }, "c"),
        (RepositoryError::Type { context: s("c") }, "Type error: c"),
        (RepositoryError::Json { context: s("c") }, "JSON error: c"),
        (RepositoryError::Migration { context: s("c") }, "Migration error: c"),
        (RepositoryError::RecordNotInserted, "None of the records are inserted"),
        (RepositoryError::RecordNotUpdated, "None of the records are updated"),
        (
            RepositoryError::BackendNotSupported {
                backend: s("b"),
                context: s("c"),
            },
            "Operation not supported by backend b: c",
        ),
        (
            RepositoryError::KeyArityMismatch {
                expected: 2,
                received: 255,
            },
            "Key arity mismatch: expected 2, received 255",
        ),
        (
            RepositoryError::PrimaryKeyNotSet { context: s("c") },
            "Primay key not set for c",
        ),
        (RepositoryError::Rbac { context: s("c") }, "RBAC error: c"),
        (
            RepositoryError::AccessDenied {
                permission: s("p"),
                resource: s("r"),
            },
            "Access denied: cannot perform `p` on `r`",
        ),
    ];
    for (error, message) in cases {
        assert_eq!(error.message(), message);
        assert_eq!(
            UserError::Database {
                inner_error: error.clone()
            }
            .message(),
            message
        );
        assert_eq!(
            GrantError::Database {
                inner_error: error.clone()
            }
            .message(),
            message
        );
        assert_eq!(
            ApplicationError::Database { inner_error: error }.message(),
            message
        );
    }
}

#[test]
fn operation_errors_have_their_messages() {
    let dto = DtoError::Unimplemented;
    assert_eq!(UserError::Dto { inner_error: dto }.message(), "wow!");
    assert_eq!(
        UserError::NotCreated.message(),
        "The user was not created, an unknown error occurred"
    );
    assert_eq!(
        UserError::UserNotFound { user_id: -3 }.message(),
        "No user was found with user_id=-3"
    );
    assert_eq!(UserError::NoChangeRequested.message(), "Called update with no changes");
    assert_eq!(GrantError::Dto { inner_error: dto }.message(), "wow!");
    assert_eq!(
        GrantError::ApplicationNotFound {
            application_id: s("a")
        }
        .message(),
        "No application was found with id=a"
    );
    assert_eq!(
        GrantError::GrantNotFound { grant_id: s("g") }.message(),
        "No grant was found with id=g"
    );
    assert_eq!(ApplicationError::Dto { inner_error: dto }.message(), "wow!");
    assert_eq!(
        ApplicationError::ApplicationNotFound {
            application_id: s("a")
        }
        .message(),
        "No application was found with id=a"
    );
    assert_eq!(
        ApplicationError::NoChangeRequested.message(),
        "Called update with no changes"
    );
}

#[test]
fn the_services_are_made_from_the_signing_key() {
    let services = ApiServices::new("thedefaultsigningkeyisverycool").unwrap();
    let other = ApiServices::new("another key").unwrap();
    let hash = services.hasher.hash("pw").unwrap();
    assert_eq!(other.hasher.verify(&hash, "pw"), Ok(()));
    let token = auth_core::api::DebugApi::create_jwt(&services.jwt, 5).unwrap();
    assert!(services.jwt.verify(&token).is_ok());
    assert!(other.jwt.verify(&token).is_err());
    assert_eq!(
        ApiServicesError::Hasher {
            inner_error: auth_core::hasher::HasherError::Version
        }
        .message(),
        "Invalid algorithm version"
    );
}
