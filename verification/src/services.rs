//! The two services that a request handler needs, made once when the
//! process starts and shared by reference afterwards.

use vstd::prelude::*;
use crate::hasher::{password_hash_of, Hasher, HasherError, DUMMY_PASSWORD_LENGTH};
use crate::token::{Jwt, JwtError};

verus! {

/// A failure to make the services.
#[allow(inconsistent_fields)]
#[derive(Clone, Debug, PartialEq, Eq)]
pub enum ApiServicesError {
    /// The token signer could not be made.
    Jwt { inner_error: JwtError },
    /// The password hasher could not be made.
    Hasher { inner_error: HasherError },
}

impl ApiServicesError {
    /// The text of this error: that of the error it holds.
    pub open spec fn message_text(&self) -> Seq<char> {
        match *self {
            ApiServicesError::Jwt { inner_error } => inner_error.message_text(),
            ApiServicesError::Hasher { inner_error } => inner_error.message_text(),
        }
    }

    /// The text shown for this error.
    pub fn message(&self) -> (text: String)
        ensures
            text@ == self.message_text(),
    {
        match self {
            ApiServicesError::Jwt { inner_error } => inner_error.message(),
            ApiServicesError::Hasher { inner_error } => inner_error.message(),
        }
    }
}

/// The password hasher and the token signer of the service.
#[derive(Clone)]
pub struct ApiServices {
    pub hasher: Hasher,
    pub jwt: Jwt,
}

impl ApiServices {
    /// The services for the secret `signing_key`. The hasher is made first,
    /// and its failure is the only one there is. Whatever filler and salt
    /// were drawn, the outcome is that of hashing the filler under the salt:
    /// the services hold this hash, this salt and the signing key, and they
    /// are not made only where Argon2 cannot hash what was drawn.
    pub fn new(signing_key: &str) -> (made: Result<Self, ApiServicesError>)
        ensures
            made matches Ok(services) ==> services.hasher.well_formed() && services.jwt.secret()
                == signing_key@,
            made matches Err(error) ==> error is Hasher,
            exists|filler: Seq<char>, salt: Seq<char>|
                filler.len() == DUMMY_PASSWORD_LENGTH && match #[trigger] password_hash_of(filler, salt) {
                    Some(hash) => made matches Ok(services) && services.hasher.dummy_hash() == hash
                        && services.hasher.salt() == salt && services.jwt.secret() == signing_key@,
                    None => made matches Err(error) && error is Hasher,
                },
    {
        let hasher = match Hasher::new() {
            Ok(hasher) => hasher,
            Err(inner_error) => {
                return Err(ApiServicesError::Hasher { inner_error });
            },
        };
        let jwt = match Jwt::new(signing_key) {
            Ok(jwt) => jwt,
            Err(inner_error) => {
                return Err(ApiServicesError::Jwt { inner_error });
            },
        };
        Ok(ApiServices { hasher, jwt })
    }
}

} // verus!
