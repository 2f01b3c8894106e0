//! Login: the password is checked, always at the cost of one verification, and
//! a token is issued for the user's grants.

use vstd::prelude::*;
use crate::api::ApiError;
use crate::claims::{issued_for, Claims, ClaimsView, TOKEN_TTL};
use crate::clock::unix_now;
use crate::dto::UserDetailDto;
use crate::error::UserError;
use crate::hasher::password_matches;
use crate::models::{keyed_grants, presented_user, User};
use crate::services::ApiServices;
use crate::token::issued_token;

verus! {

/// The credentials presented at login.
#[derive(Clone, Debug, PartialEq, Eq)]
pub struct LoginPayload {
    pub username: String,
    pub password: String,
}

/// What a successful login returns: the user, the claims issued, and the
/// token that holds them.
#[derive(Clone, Debug, PartialEq, Eq)]
pub struct LoginResponsePayload {
    pub user: User,
    pub claims: Claims,
    pub token: String,
}

/// The outcome of a login.
#[derive(Clone, Debug, PartialEq, Eq)]
pub enum LoginResponse {
    /// The credentials were accepted.
    Success(LoginResponsePayload),
    /// The user is unknown or the password is wrong; the caller is not told
    /// which.
    InvalidCredentials,
    /// The login could not be completed.
    Failed(ApiError),
}

/// Whether the credentials are accepted: the user exists and Argon2 accepts
/// the password for the stored hash.
pub open spec fn credentials_accepted(user: Option<UserDetailDto>, password: Seq<char>) -> bool {
    match user {
        Some(found) => password_matches(found.user.password@, password),
        None => false,
    }
}

/// The claims that a login at the time `now` issues for a stored user: those
/// of the grants that the user holds enabled, keyed by grant.
pub open spec fn login_claims(found: UserDetailDto, now: u64) -> ClaimsView {
    issued_for(found.user.user_id, keyed_grants(found.grants@), now)
}

/// The text of the error reported where signing fails for the reason `cause`.
pub open spec fn signing_failure(cause: Seq<char>) -> Seq<char> {
    "Failed to sign claims: "@ + cause
}

/// What a login at the time `now` answers, given what the lookup of the user
/// name gave and what signing gives.
///
/// * A lookup that failed gives `Failed`, with the text of its error.
/// * A user that does not exist, or a password that Argon2 does not accept
///   for the stored hash, gives `InvalidCredentials`.
/// * Accepted credentials give `Success` with the user, the claims issued at
///   `now` for its enabled grants, and the token handed out for these claims,
///   which reads back as them; or `Failed`, with the text of the signing
///   error, where no token is handed out.
pub open spec fn login_answer(
    lookup: Result<Option<UserDetailDto>, UserError>,
    secret: Seq<char>,
    password: Seq<char>,
    now: u64,
    response: LoginResponse,
) -> bool {
    match lookup {
        Err(error) => response matches LoginResponse::Failed(reported) && reported.text()
            == error.message_text(),
        Ok(user) => if !credentials_accepted(user, password) {
            response is InvalidCredentials
        } else {
            match issued_token(secret, login_claims(user->0, now)) {
                Some(token) => response matches LoginResponse::Success(granted) && {
                    &&& granted.user == presented_user(user->0.user, granted.user.grants)
                    &&& granted.user.grants@ == keyed_grants(user->0.grants@)
                    &&& granted.claims@ == login_claims(user->0, now)
                    &&& granted.token@ == token
                },
                None => response matches LoginResponse::Failed(reported) && exists|cause: Seq<char>|
                    reported.text() == #[trigger] signing_failure(cause),
            }
        },
    }
}

/// Logs a user in at the time `now`. `lookup` is what the lookup of the
/// payload's user name gave. One verification is run in every case: against
/// the stored hash where the user exists, against the filler hash where the
/// user does not exist or the lookup failed.
pub fn login_at(
    lookup: Result<Option<UserDetailDto>, UserError>,
    services: &ApiServices,
    payload: &LoginPayload,
    now: u64,
) -> (response: LoginResponse)
    requires
        now + TOKEN_TTL <= u64::MAX,
    ensures
        login_answer(lookup, services.jwt.secret(), payload.password@, now, response),
{
    let user = match lookup {
        Ok(user) => user,
        Err(error) => {
            services.hasher.dummy_verification(payload.password.as_str());
            return LoginResponse::Failed(ApiError::from_user_error(&error));
        },
    };
    let found = match user {
        Some(found) => found,
        None => {
            services.hasher.dummy_verification(payload.password.as_str());
            return LoginResponse::InvalidCredentials;
        },
    };
    match services.hasher.verify(found.user.password.as_str(), payload.password.as_str()) {
        Ok(()) => {},
        Err(_) => {
            return LoginResponse::InvalidCredentials;
        },
    }
    let user = User::from_detail(found);
    let claims = Claims::issue_at(&user, now);
    let token = match services.jwt.sign(&claims) {
        Ok(token) => token,
        Err(error) => {
            proof {
                assert(error.message_text() == signing_failure(error->Sign_inner_error@));
            }
            return LoginResponse::Failed(ApiError::new(error.message()));
        },
    };
    LoginResponse::Success(LoginResponsePayload { user, claims, token })
}

/// Logs a user in at the time the clock shows. `lookup` is what the lookup of
/// the payload's user name gave.
pub fn login(lookup: Result<Option<UserDetailDto>, UserError>, services: &ApiServices, payload: &LoginPayload) -> (response:
    LoginResponse)
    ensures
        exists|now: u64| #[trigger] login_answer(lookup, services.jwt.secret(), payload.password@, now, response),
{
    let now = unix_now();
    let response = login_at(lookup, services, payload, now as u64);
    assert(login_answer(lookup, services.jwt.secret(), payload.password@, now as u64, response));
    response
}

} // verus!
