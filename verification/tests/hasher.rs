use auth_core::hasher::{Hasher, HasherError};

// "password" hashed with a memory cost of 256 KiB, two passes, one lane, under the salt "somesalt".
const KNOWN_HASH: &str =
    "$argon2id$v=19$m=256,t=2,p=1$c29tZXNhbHQ$nf65EOgLrQMR/uIPnA4rEsF5h7TKyQwu9U1bMCHGi/4";
const SALT: &str = "c29tZXNhbHQ";

fn hasher() -> Hasher {
    Hasher::with_material("a filler password", SALT.to_string()).unwrap()
}

#[test]
fn verify_accepts_the_password_of_a_known_hash() {
    assert_eq!(hasher().verify(KNOWN_HASH, "password"), Ok(()));
}

#[test]
fn verify_rejects_another_password() {
    let hasher = hasher();
    assert_eq!(hasher.verify(KNOWN_HASH, "sassword"), Err(HasherError::Password));
    assert_eq!(hasher.verify(KNOWN_HASH, ""), Err(HasherError::Password));
    assert_eq!(hasher.verify(KNOWN_HASH, KNOWN_HASH), Err(HasherError::Password));
}

#[test]
fn verify_reports_a_hash_that_does_not_parse() {
    let hasher = hasher();
    assert_eq!(hasher.verify("", "password"), Err(HasherError::PhcStringField));
    assert_eq!(hasher.verify("password", "password"), Err(HasherError::PhcStringField));
    assert_eq!(
        hasher.verify("$nosuchalgorithm$v=19$m=256,t=2,p=1$c29tZXNhbHQ$nf65EOgLrQMR/uIPnA4rEsF5h7TKyQwu9U1bMCHGi/4", "password"),
        Err(HasherError::Algorithm)
    );
    assert!(hasher
        .verify("$argon2id$v=19$m=256,t=2,p=1$c29tZXNhbHQ$nf65EOgLrQMR/uIPnA4rEsF5h7TKyQwu9U1bMCHGi/4$more", "password")
        .is_err());
}

#[test]
fn hash_uses_the_salt_and_the_default_cost() {
    let hasher = hasher();
    let hash = hasher.hash("correct horse").unwrap();
    assert!(hash.starts_with("$argon2id$v=19$m=19456,t=2,p=1$c29tZXNhbHQ$"));
    assert_ne!(hash, "correct horse");
    assert_eq!(hasher.hash("correct horse"), Ok(hash.clone()));
    assert_eq!(hasher.verify(&hash, "correct horse"), Ok(()));
    assert_eq!(hasher.verify(&hash, "correct horsf"), Err(HasherError::Password));
}

#[test]
fn hash_depends_on_password_and_salt() {
    let hasher = hasher();
    let other = Hasher::with_material("a filler password", "ZGlmZnNhbHQ".to_string()).unwrap();
    let hash = hasher.hash("pw").unwrap();
    assert_ne!(hasher.hash("pW").unwrap(), hash);
    assert_ne!(other.hash("pw").unwrap(), hash);
}

#[test]
fn a_salt_that_is_none_is_an_error() {
    assert_eq!(
        Hasher::with_material("filler", "abc".to_string()).err(),
        Some(HasherError::SaltInvalid {
            context: "TooShort".to_string()
        })
    );
    assert_eq!(
        Hasher::with_material("filler", "not base64!".to_string()).err(),
        Some(HasherError::SaltInvalid {
            context: "InvalidChar(' ')".to_string()
        })
    );
}

#[test]
fn new_draws_salt_and_filler() {
    let first = Hasher::new().unwrap();
    let second = Hasher::new().unwrap();
    let from_first = first.hash("pw").unwrap();
    let from_second = second.hash("pw").unwrap();
    assert_ne!(from_first, from_second);
    assert_eq!(second.verify(&from_first, "pw"), Ok(()));
}

#[test]
fn dummy_verification_returns_for_any_password() {
    let hasher = hasher();
    hasher.dummy_verification("");
    hasher.dummy_verification("a filler password");
    hasher.dummy_verification("\u{1F600} anything");
}

#[test]
fn hasher_errors_have_their_messages() {
    assert_eq!(HasherError::Algorithm.message(), "Unsupported algorithm");
    assert_eq!(
        HasherError::B64Encoding {
            inner_error: "x".to_string()
        }
        .message(),
        "B64 encoding error"
    );
    assert_eq!(HasherError::Crypto.message(), "Cryptographic error");
    assert_eq!(
        HasherError::OutputSize {
            context: "x".to_string()
        }
        .message(),
        "Output size unexpected"
    );
    assert_eq!(
        HasherError::ParamNameDuplicated.message(),
        "Duplicate parameter name encountered"
    );
    assert_eq!(HasherError::ParamNameInvalid.message(), "Invalid parameter name");
    assert_eq!(
        HasherError::ParamValueInvalid {
            context: "x".to_string()
        }
        .message(),
        "Invalid parameter value"
    );
    assert_eq!(
        HasherError::ParamsMaxExceeded.message(),
        "Maximum number of parameters exceeded"
    );
    assert_eq!(HasherError::Password.message(), "Invalid password");
    assert_eq!(HasherError::PhcStringField.message(), "Password hash string invalid");
    assert_eq!(
        HasherError::PhcStringTrailingData.message(),
        "Password hash string contains trailing data"
    );
    assert_eq!(
        HasherError::SaltInvalid {
            context: "x".to_string()
        }
        .message(),
        "Salt invalid"
    );
    assert_eq!(HasherError::Version.message(), "Invalid algorithm version");
    assert_eq!(
        HasherError::Unknown {
            inner_error: "x".to_string()
        }
        .message(),
        "Unknown hashing error: x"
    );
}

#[test]
fn each_fault_of_a_hash_has_its_error() {
    let hasher = hasher();
    let verify = |hash: &str| hasher.verify(hash, "password");
    assert_eq!(
        verify("$argon2id$v=19$m=256,t=2,p=1$c29tZXNhbHQ$!!!"),
        Err(HasherError::B64Encoding {
            inner_error: "invalid Base64 encoding".to_string()
        })
    );
    assert_eq!(
        verify("$argon2id$v=19$m=256,t=2,p=1$c29tZXNhbHQ$nf65EOgLrQMR"),
        Err(HasherError::OutputSize {
            context: "(Less; 10)".to_string()
        })
    );
    assert_eq!(
        verify("$argon2id$v=19$m=1,t=2,p=1$c29tZXNhbHQ$nf65EOgLrQMR/uIPnA4rEsF5h7TKyQwu9U1bMCHGi/4"),
        Err(HasherError::ParamValueInvalid {
            context: "TooShort".to_string()
        })
    );
    assert_eq!(
        verify("$argon2id$v=19$m=256,t=2,p=x$c29tZXNhbHQ$nf65EOgLrQMR/uIPnA4rEsF5h7TKyQwu9U1bMCHGi/4"),
        Err(HasherError::ParamValueInvalid {
            context: "InvalidChar('x')".to_string()
        })
    );
    assert_eq!(
        verify("$argon2id$v=18$m=256,t=2,p=1$c29tZXNhbHQ$nf65EOgLrQMR/uIPnA4rEsF5h7TKyQwu9U1bMCHGi/4"),
        Err(HasherError::Version)
    );
    assert_eq!(
        verify("$argon2id$v=19$m=256,t=2,q=1$c29tZXNhbHQ$nf65EOgLrQMR/uIPnA4rEsF5h7TKyQwu9U1bMCHGi/4"),
        Err(HasherError::ParamNameInvalid)
    );
    assert_eq!(
        verify("$argon2id$v=19$m=256,t=2,p=1$c29tZXNhbHQ$nf65EOgLrQMR/uIPnA4rEsF5h7TKyQwu9U1bMCHGi/4$more"),
        Err(HasherError::PhcStringTrailingData)
    );
    assert_eq!(
        verify("$argon2id$v=19$m=256,t=2,p=1$c29$nf65EOgLrQMR/uIPnA4rEsF5h7TKyQwu9U1bMCHGi/4"),
        Err(HasherError::SaltInvalid {
            context: "TooShort".to_string()
        })
    );
    assert_eq!(verify("$argon2id$v=19$m=256,t=2,p=1"), Err(HasherError::Password));
    assert_eq!(
        Hasher::with_material("filler", "c29tZXNhbHQ".repeat(8)).err(),
        Some(HasherError::SaltInvalid {
            context: "TooLong".to_string()
        })
    );
}
