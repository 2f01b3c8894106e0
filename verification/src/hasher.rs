//! Password hashing with Argon2, and a verification whose cost does not
//! depend on whether the user exists.

use vstd::prelude::*;
use vstd::string::StringExecFns;
use argon2::password_hash::rand_core::OsRng;
use argon2::password_hash::{PasswordHash, PasswordHasher, PasswordVerifier, SaltString};
use argon2::Argon2;
use rand::Rng;
use crate::text::push_char;

verus! {

/// The error of the `password-hash` crate, which `argon2` hands out.
#[verifier::external_type_specification]
#[verifier::external_body]
pub struct ExPasswordHashError(argon2::password_hash::Error);

/// How many characters the filler password has.
pub const DUMMY_PASSWORD_LENGTH: usize = 18;

/// The PHC string that Argon2, with its default parameters, computes for a
/// password and a salt in B64, or `None` where it fails.
pub uninterp spec fn password_hash_of(password: Seq<char>, salt: Seq<char>) -> Option<Seq<char>>;

/// Whether Argon2 accepts a password for a PHC string: the string parses, and
/// hashing the password with the parameters and the salt it names gives the
/// output it holds.
pub uninterp spec fn password_matches(hash: Seq<char>, password: Seq<char>) -> bool;

/// A failure of the password hasher.
#[derive(Clone, Debug, PartialEq, Eq)]
pub enum HasherError {
    Algorithm,
    B64Encoding { inner_error: String },
    Crypto,
    OutputSize { context: String },
    ParamNameDuplicated,
    ParamNameInvalid,
    ParamValueInvalid { context: String },
    ParamsMaxExceeded,
    Password,
    PhcStringField,
    PhcStringTrailingData,
    SaltInvalid { context: String },
    Version,
    Unknown { inner_error: String },
}

/// The variants of the outside error that carry nothing, each as the variant
/// of the same name; `None` for every other variant.
#[verifier::external_body]
fn plain_error(error: &argon2::password_hash::Error) -> (plain: Option<HasherError>) {
    match error {
        argon2::password_hash::Error::Algorithm => Some(HasherError::Algorithm),
        argon2::password_hash::Error::Crypto => Some(HasherError::Crypto),
        argon2::password_hash::Error::ParamNameDuplicated => Some(HasherError::ParamNameDuplicated),
        argon2::password_hash::Error::ParamNameInvalid => Some(HasherError::ParamNameInvalid),
        argon2::password_hash::Error::ParamsMaxExceeded => Some(HasherError::ParamsMaxExceeded),
        argon2::password_hash::Error::Password => Some(HasherError::Password),
        argon2::password_hash::Error::PhcStringField => Some(HasherError::PhcStringField),
        argon2::password_hash::Error::PhcStringTrailingData => Some(HasherError::PhcStringTrailingData),
        argon2::password_hash::Error::Version => Some(HasherError::Version),
        _ => None,
    }
}

/// The variants of the outside error that carry a value, each as the variant
/// of the same name with the value written out; `Unknown`, with the error's
/// own text, for every other variant.
#[verifier::external_body]
fn detailed_error(error: argon2::password_hash::Error) -> (detailed: HasherError) {
    match error {
        argon2::password_hash::Error::B64Encoding(inner) => HasherError::B64Encoding {
            inner_error: inner.to_string(),
        },
        argon2::password_hash::Error::OutputSize { provided, expected } => HasherError::OutputSize {
            context: format!("({provided:?}; {expected:?})"),
        },
        argon2::password_hash::Error::ParamValueInvalid(value) => HasherError::ParamValueInvalid {
            context: format!("{:?}", value),
        },
        argon2::password_hash::Error::SaltInvalid(value) => HasherError::SaltInvalid {
            context: format!("{:?}", value),
        },
        other => HasherError::Unknown { inner_error: other.to_string() },
    }
}

impl HasherError {
    /// The error of this library for an error of the hashing crate.
    pub(crate) fn from_password_hash(error: argon2::password_hash::Error) -> (converted: HasherError) {
        match plain_error(&error) {
            Some(plain) => plain,
            None => detailed_error(error),
        }
    }

    /// The text of this error. Only `Unknown` shows the text of its cause.
    pub open spec fn message_text(&self) -> Seq<char> {
        match *self {
            HasherError::Algorithm => "Unsupported algorithm"@,
            HasherError::B64Encoding { .. } => "B64 encoding error"@,
            HasherError::Crypto => "Cryptographic error"@,
            HasherError::OutputSize { .. } => "Output size unexpected"@,
            HasherError::ParamNameDuplicated => "Duplicate parameter name encountered"@,
            HasherError::ParamNameInvalid => "Invalid parameter name"@,
            HasherError::ParamValueInvalid { .. } => "Invalid parameter value"@,
            HasherError::ParamsMaxExceeded => "Maximum number of parameters exceeded"@,
            HasherError::Password => "Invalid password"@,
            HasherError::PhcStringField => "Password hash string invalid"@,
            HasherError::PhcStringTrailingData => "Password hash string contains trailing data"@,
            HasherError::SaltInvalid { .. } => "Salt invalid"@,
            HasherError::Version => "Invalid algorithm version"@,
            HasherError::Unknown { inner_error } => "Unknown hashing error: "@ + inner_error@,
        }
    }

    /// The text shown for this error.
    pub fn message(&self) -> (text: String)
        ensures
            text@ == self.message_text(),
    {
        match self {
            HasherError::Algorithm => "Unsupported algorithm".to_owned(),
            HasherError::B64Encoding { .. } => "B64 encoding error".to_owned(),
            HasherError::Crypto => "Cryptographic error".to_owned(),
            HasherError::OutputSize { .. } => "Output size unexpected".to_owned(),
            HasherError::ParamNameDuplicated => "Duplicate parameter name encountered".to_owned(),
            HasherError::ParamNameInvalid => "Invalid parameter name".to_owned(),
            HasherError::ParamValueInvalid { .. } => "Invalid parameter value".to_owned(),
            HasherError::ParamsMaxExceeded => "Maximum number of parameters exceeded".to_owned(),
            HasherError::Password => "Invalid password".to_owned(),
            HasherError::PhcStringField => "Password hash string invalid".to_owned(),
            HasherError::PhcStringTrailingData => "Password hash string contains trailing data".to_owned(),
            HasherError::SaltInvalid { .. } => "Salt invalid".to_owned(),
            HasherError::Version => "Invalid algorithm version".to_owned(),
            HasherError::Unknown { inner_error } => "Unknown hashing error: ".to_owned().concat(
                inner_error.as_str(),
            ),
        }
    }
}

/// One character from `rand::rng().random::<char>()`.
///
/// Trusted for nothing: the character is drawn at random, so no call says
/// anything of the next.
#[verifier::external_body]
fn random_char() -> (character: char) {
    rand::rng().random::<char>()
}

/// A fresh salt in B64, from `SaltString::generate` on the system's random
/// source.
///
/// Trusted for nothing: the salt is drawn at random.
#[verifier::external_body]
fn generate_salt() -> (salt: String) {
    SaltString::generate(&mut OsRng).as_str().to_owned()
}

/// Hashes a password with `Argon2::default().hash_password`, under the salt
/// that `SaltString::from_b64` reads from `salt`.
///
/// Trusted: the outcome depends on the password and the salt alone, since the
/// parameters are the crate's fixed defaults.
#[verifier::external_body]
fn argon2_hash(password: &str, salt: &str) -> (hashed: Result<String, argon2::password_hash::Error>)
    ensures
        hashed is Ok <==> password_hash_of(password@, salt@) is Some,
        hashed matches Ok(hash) ==> password_hash_of(password@, salt@) == Some(hash@),
{
    let salt = SaltString::from_b64(salt)?;
    let hash = Argon2::default().hash_password(password.as_bytes(), &salt)?;
    Ok(hash.to_string())
}

/// Verifies a password with `Argon2::default().verify_password`, against the
/// hash that `PasswordHash::new` reads from `hash`.
///
/// Trusted: the outcome depends on the hash string and the password alone.
#[verifier::external_body]
fn argon2_verify(hash: &str, password: &str) -> (verdict: Result<(), argon2::password_hash::Error>)
    ensures
        verdict is Ok <==> password_matches(hash@, password@),
{
    let parsed = PasswordHash::new(hash)?;
    Argon2::default().verify_password(password.as_bytes(), &parsed)
}

/// The password hasher of the service. It holds the salt for new hashes and
/// the hash of a random filler password, both drawn once when it is made.
#[derive(Clone, Debug)]
pub struct Hasher {
    dummy_hash: String,
    salt: String,
}

impl Hasher {
    /// The hash that stands in where a user does not exist.
    pub closed spec fn dummy_hash(&self) -> Seq<char> {
        self.dummy_hash@
    }

    /// The salt under which new passwords are hashed.
    pub closed spec fn salt(&self) -> Seq<char> {
        self.salt@
    }

    /// Whether the filler hash is what its name says: the hash, under this
    /// hasher's salt, of some password of `DUMMY_PASSWORD_LENGTH` characters.
    pub open spec fn well_formed(&self) -> bool {
        exists|filler: Seq<char>|
            filler.len() == DUMMY_PASSWORD_LENGTH && #[trigger] password_hash_of(filler, self.salt())
                == Some(self.dummy_hash())
    }

    /// A hasher for a given filler password and salt. It fails exactly where
    /// Argon2 cannot hash the filler under the salt.
    pub fn with_material(dummy_password: &str, salt: String) -> (made: Result<Self, HasherError>)
        ensures
            match password_hash_of(dummy_password@, salt@) {
                Some(hash) => made matches Ok(hasher) && hasher.dummy_hash() == hash && hasher.salt()
                    == salt@,
                None => made is Err,
            },
    {
        match argon2_hash(dummy_password, salt.as_str()) {
            Ok(dummy_hash) => Ok(Hasher { dummy_hash, salt }),
            Err(error) => Err(HasherError::from_password_hash(error)),
        }
    }

    /// A password of `DUMMY_PASSWORD_LENGTH` random characters.
    fn random_password() -> (password: String)
        ensures
            password@.len() == DUMMY_PASSWORD_LENGTH,
    {
        let mut password = String::new();
        let mut i: usize = 0;
        while i < DUMMY_PASSWORD_LENGTH
            invariant
                i <= DUMMY_PASSWORD_LENGTH,
                password@.len() == i,
            decreases DUMMY_PASSWORD_LENGTH - i,
        {
            push_char(&mut password, random_char());
            i += 1;
        }
        password
    }

    /// A hasher with a fresh salt and the hash of a fresh random filler
    /// password. Whatever was drawn, the outcome is that of hashing a filler
    /// of `DUMMY_PASSWORD_LENGTH` characters under a salt: a hasher that holds
    /// this hash and this salt, and an error only where Argon2 cannot hash what
    /// was drawn.
    pub fn new() -> (made: Result<Self, HasherError>)
        ensures
            made matches Ok(hasher) ==> hasher.well_formed(),
            exists|filler: Seq<char>, salt: Seq<char>|
                filler.len() == DUMMY_PASSWORD_LENGTH && match #[trigger] password_hash_of(filler, salt) {
                    Some(hash) => made matches Ok(hasher) && hasher.dummy_hash() == hash && hasher.salt()
                        == salt,
                    None => made is Err,
                },
    {
        let dummy_password = Self::random_password();
        let salt = generate_salt();
        let ghost drawn_salt = salt@;
        let made = Self::with_material(dummy_password.as_str(), salt);
        proof {
            let outcome = password_hash_of(dummy_password@, drawn_salt);
            assert(dummy_password@.len() == DUMMY_PASSWORD_LENGTH && match outcome {
                Some(hash) => made matches Ok(hasher) && hasher.dummy_hash() == hash && hasher.salt()
                    == drawn_salt,
                None => made is Err,
            });
        }
        made
    }

    /// Runs the verification of `password` against the filler hash and drops
    /// the result. To be called where a login names a user that does not
    /// exist, so that the attempt costs what a wrong password costs.
    pub fn dummy_verification(&self, password: &str) {
        let _ = self.verify(self.dummy_hash.as_str(), password);
    }

    /// Hashes `password` under this hasher's salt.
    pub fn hash(&self, password: &str) -> (hashed: Result<String, HasherError>)
        ensures
            match password_hash_of(password@, self.salt()) {
                Some(hash) => hashed matches Ok(text) && text@ == hash,
                None => hashed is Err,
            },
    {
        match argon2_hash(password, self.salt.as_str()) {
            Ok(hash) => Ok(hash),
            Err(error) => Err(HasherError::from_password_hash(error)),
        }
    }

    /// Verifies `password` against `hash`. It succeeds exactly where Argon2
    /// accepts the password for the hash; a mismatch is an error like any
    /// other, and an expected one.
    pub fn verify(&self, hash: &str, password: &str) -> (verdict: Result<(), HasherError>)
        ensures
            verdict is Ok <==> password_matches(hash@, password@),
    {
        match argon2_verify(hash, password) {
            Ok(()) => Ok(()),
            Err(error) => Err(HasherError::from_password_hash(error)),
        }
    }
}

} // verus!
