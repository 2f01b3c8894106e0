//! Signed tokens: a set of claims is signed with the service's key, and a
//! presented token is authenticated, decoded and validated.

use vstd::prelude::*;
use vstd::string::StringExecFns;
use hmac::digest::KeyInit;
use hmac::Hmac;
use jwt::{SignWithKey, VerifyWithKey};
use sha2::Sha256;
use crate::claims::{rejection, Claims, ClaimsRejection, ClaimsView, PRODUCT_IDENTIFIER};
use crate::clock::unix_now;
use crate::json::{
    decoded, encoded, exact, lemma_decode_encode, lemma_decoded_by_fields, same_fields, JsonValue,
    JsonView, MalformedClaims,
};

verus! {

/// The error of the `jwt` crate.
#[verifier::external_type_specification]
#[verifier::external_body]
pub struct ExJwtCrateError(jwt::Error);

/// The JSON value of the `serde_json` crate.
#[verifier::external_type_specification]
#[verifier::external_body]
pub struct ExSerdeValue(serde_json::Value);

/// The token that the `jwt` crate writes for a payload under an HMAC-SHA256
/// key made of the bytes of `secret`, or `None` where it fails.
pub uninterp spec fn signed_token(secret: Seq<char>, payload: JsonView) -> Option<Seq<char>>;

/// The payload that the `jwt` crate reads from a token whose signature it
/// accepts under an HMAC-SHA256 key made of the bytes of `secret`, or `None`
/// where it rejects the token.
pub uninterp spec fn token_payload(secret: Seq<char>, token: Seq<char>) -> Option<JsonView>;

/// A tree of plain values as a `serde_json::Value`, variant by variant. The
/// entries of an object are inserted in order, so that a later entry replaces
/// an earlier one with the same key. `Fraction` keeps no value and is written
/// as null; the callers here pass none.
#[verifier::external_body]
fn to_serde(value: &JsonValue) -> serde_json::Value {
    match value {
        JsonValue::Null | JsonValue::Fraction => serde_json::Value::Null,
        JsonValue::Bool(flag) => serde_json::Value::Bool(*flag),
        JsonValue::Unsigned(number) => serde_json::Value::from(*number),
        JsonValue::Signed(number) => serde_json::Value::from(*number),
        JsonValue::Text(text) => serde_json::Value::String(text.clone()),
        JsonValue::List(items) => serde_json::Value::Array(items.iter().map(to_serde).collect()),
        JsonValue::Object(entries) => serde_json::Value::Object(
            entries.iter().map(|entry| (entry.0.clone(), to_serde(&entry.1))).collect(),
        ),
    }
}

/// A `serde_json::Value` as a tree of plain values, variant by variant. A
/// number is `Unsigned` where `as_u64` gives it, else `Signed` where
/// `as_i64` gives it, else `Fraction`.
#[verifier::external_body]
fn from_serde(value: serde_json::Value) -> JsonValue {
    match value {
        serde_json::Value::Null => JsonValue::Null,
        serde_json::Value::Bool(flag) => JsonValue::Bool(flag),
        serde_json::Value::Number(number) => match (number.as_u64(), number.as_i64()) {
            (Some(unsigned), _) => JsonValue::Unsigned(unsigned),
            (None, Some(signed)) => JsonValue::Signed(signed),
            (None, None) => JsonValue::Fraction,
        },
        serde_json::Value::String(text) => JsonValue::Text(text),
        serde_json::Value::Array(items) => JsonValue::List(items.into_iter().map(from_serde).collect()),
        serde_json::Value::Object(entries) => JsonValue::Object(
            entries.into_iter().map(|(key, value)| (key, from_serde(value))).collect(),
        ),
    }
}

/// Signs `payload` with `sign_with_key` of the `jwt` crate, under the key that
/// `Hmac::<Sha256>::new_from_slice` makes of the bytes of `secret`.
///
/// Trusted: the token depends on the secret and the payload alone. The crate
/// writes the header `{"alg":"HS256"}` and the payload as JSON, encodes both
/// in URL-safe base64 without padding, and appends the HMAC of the two parts;
/// no step reads anything else.
#[verifier::external_body]
fn sign_payload(secret: &str, payload: &JsonValue) -> (signed: Result<String, jwt::Error>)
    requires
        exact(payload@),
    ensures
        signed is Ok <==> signed_token(secret@, payload@) is Some,
        signed matches Ok(token) ==> signed_token(secret@, payload@) == Some(token@),
{
    let key: Hmac<Sha256> = Hmac::new_from_slice(secret.as_bytes())?;
    to_serde(payload).sign_with_key(&key)
}

/// Reads the payload of `token` with `verify_with_key` of the `jwt` crate,
/// under the key that `Hmac::<Sha256>::new_from_slice` makes of the bytes of
/// `secret`.
///
/// Trusted: the outcome depends on the secret and the token alone. The crate
/// splits the token into its three parts, decodes header and payload, and
/// fails unless the header names HS256 and the third part is the HMAC of the
/// first two.
#[verifier::external_body]
fn verify_token(secret: &str, token: &str) -> (verified: Result<JsonValue, jwt::Error>)
    ensures
        verified is Ok <==> token_payload(secret@, token@) is Some,
        verified matches Ok(payload) ==> token_payload(secret@, token@) == Some(payload@),
{
    let key: Hmac<Sha256> = Hmac::new_from_slice(secret.as_bytes())?;
    let value: serde_json::Value = token.verify_with_key(&key)?;
    Ok(from_serde(value))
}

/// The text of an error of the `jwt` crate, as its `Display` writes it.
#[verifier::external_body]
fn jwt_error_text(error: &jwt::Error) -> (text: String) {
    error.to_string()
}

/// A failure to make the key, to sign, or to verify.
#[derive(Clone, Debug, PartialEq, Eq)]
pub enum JwtError {
    /// The signing key could not be made.
    CreateSigningKey { inner_error: String },
    /// The claims could not be signed.
    Sign { inner_error: String },
    /// The token is malformed, is not signed with this key, or holds no claims.
    Verify { inner_error: String },
}

impl JwtError {
    /// The text of this error: what failed, then the text of the cause.
    pub open spec fn message_text(&self) -> Seq<char> {
        match *self {
            JwtError::CreateSigningKey { inner_error } => "Failed to create signing key: "@
                + inner_error@,
            JwtError::Sign { inner_error } => "Failed to sign claims: "@ + inner_error@,
            JwtError::Verify { inner_error } => "Failed to verify token: "@ + inner_error@,
        }
    }

    /// The text shown for this error.
    pub fn message(&self) -> (text: String)
        ensures
            text@ == self.message_text(),
    {
        match self {
            JwtError::CreateSigningKey { inner_error } => "Failed to create signing key: ".to_owned().concat(
                inner_error.as_str(),
            ),
            JwtError::Sign { inner_error } => "Failed to sign claims: ".to_owned().concat(
                inner_error.as_str(),
            ),
            JwtError::Verify { inner_error } => "Failed to verify token: ".to_owned().concat(
                inner_error.as_str(),
            ),
        }
    }
}

/// The claims that a token holds under a key: the payload that the `jwt`
/// crate reads from it, decoded. `None` where the crate rejects the token or
/// the payload holds no claims.
pub open spec fn token_claims(secret: Seq<char>, token: Seq<char>) -> Option<ClaimsView> {
    match token_payload(secret, token) {
        Some(payload) => match decoded(payload) {
            Ok(claims) => Some(claims),
            Err(_) => None,
        },
        None => None,
    }
}

/// The token that is handed out for `claims` under a key: the one that the
/// `jwt` crate writes for their payload, where the crate reads it back, under
/// the same key, as a payload that holds these claims. `None` where the crate
/// fails to sign, or where what it wrote does not read back so.
pub open spec fn issued_token(secret: Seq<char>, claims: ClaimsView) -> Option<Seq<char>> {
    match signed_token(secret, encoded(claims)) {
        Some(token) => if token_claims(secret, token) == Some(claims) {
            Some(token)
        } else {
            None
        },
        None => None,
    }
}

/// The signer and verifier of tokens, made once from the service's secret.
#[derive(Clone)]
pub struct Jwt {
    secret: String,
}

impl Jwt {
    /// The secret that the key is made of.
    pub closed spec fn secret(&self) -> Seq<char> {
        self.secret@
    }

    /// A signer and verifier for the secret `key`. HMAC takes a secret of any
    /// length, so this never fails.
    pub fn new(key: &str) -> (made: Result<Self, JwtError>)
        ensures
            made matches Ok(jwt) && jwt.secret() == key@,
    {
        Ok(Jwt { secret: key.to_owned() })
    }

    /// What `sign` returns for each outcome of the signing call.
    fn signing_outcome(signed: Result<String, jwt::Error>) -> (outcome: Result<String, JwtError>)
        ensures
            signed matches Ok(token) ==> outcome == Ok::<String, JwtError>(token),
            signed is Err ==> outcome matches Err(JwtError::Sign { .. }),
    {
        match signed {
            Ok(token) => Ok(token),
            Err(error) => Err(JwtError::Sign { inner_error: jwt_error_text(&error) }),
        }
    }

    /// Signs `claims`, and reads the token back before it is handed out: a
    /// token is returned only where it verifies under this key and holds
    /// these claims. Where the `jwt` crate fails to sign, or the token does
    /// not read back as the claims signed, the error is `Sign`.
    pub fn sign(&self, claims: &Claims) -> (signed: Result<String, JwtError>)
        ensures
            match issued_token(self.secret(), claims@) {
                Some(token) => signed matches Ok(text) && text@ == token,
                None => signed matches Err(JwtError::Sign { .. }),
            },
            signed matches Ok(text) ==> token_claims(self.secret(), text@) == Some(claims@),
    {
        let payload = claims.to_json();
        let token = match Self::signing_outcome(sign_payload(self.secret.as_str(), &payload)) {
            Ok(token) => token,
            Err(error) => {
                return Err(error);
            },
        };
        let reads_back = match self.verify(token.as_str()) {
            Ok(read) => read.same_as(claims),
            Err(_) => false,
        };
        if reads_back {
            Ok(token)
        } else {
            Err(JwtError::Sign { inner_error: "the token does not read back as the claims signed".to_owned() })
        }
    }

    /// What `verify` returns for each outcome of the verifying call: the
    /// claims that an accepted payload holds, and `Verify` where the token was
    /// rejected or its payload holds no claims.
    fn verifying_outcome(verified: Result<JsonValue, jwt::Error>) -> (outcome: Result<Claims, JwtError>)
        ensures
            match verified {
                Ok(payload) => match decoded(payload@) {
                    Ok(claims) => outcome matches Ok(found) && found@ == claims,
                    Err(_) => outcome matches Err(JwtError::Verify { .. }),
                },
                Err(_) => outcome matches Err(JwtError::Verify { .. }),
            },
    {
        match verified {
            Ok(payload) => match Claims::from_json(&payload) {
                Ok(claims) => Ok(claims),
                Err(reason) => Err(JwtError::Verify { inner_error: reason.message() }),
            },
            Err(error) => Err(JwtError::Verify { inner_error: jwt_error_text(&error) }),
        }
    }

    /// Authenticates `jwt` and reads its claims. No field is looked at unless
    /// the signature is accepted. The claims are not validated against the
    /// clock or the issuer: that is `BearerJwt::extract`.
    pub fn verify(&self, jwt: &str) -> (verified: Result<Claims, JwtError>)
        ensures
            match token_claims(self.secret(), jwt@) {
                Some(claims) => verified matches Ok(found) && found@ == claims,
                None => verified matches Err(JwtError::Verify { .. }),
            },
    {
        Self::verifying_outcome(verify_token(self.secret.as_str(), jwt))
    }
}

/// Why a presented token gives no access.
#[derive(Clone, Debug, PartialEq, Eq)]
pub enum AuthError {
    /// The token is malformed, is not signed with the service's key, or holds
    /// no claims.
    SignatureInvalid { inner_error: JwtError },
    /// The token is authentic and its claims are rejected.
    ClaimsRejected { reason: ClaimsRejection },
}

impl AuthError {
    /// What the caller is told, whatever the reason: nothing of a token's
    /// structure is confirmed to the one who presents it.
    pub fn public_message(&self) -> (text: String)
        ensures
            text@ == "Unauthorized"@,
    {
        "Unauthorized".to_owned()
    }
}

/// The claims of a bearer token that was authenticated and validated.
#[derive(Clone, Debug, PartialEq, Eq)]
pub struct BearerJwt(pub Claims);

/// What presenting `token` at the time `now` gives: the claims it holds, where
/// the token is authentic and the claims are valid at `now`.
pub open spec fn presented(secret: Seq<char>, token: Seq<char>, now: u64) -> Option<
    Result<ClaimsView, ClaimsRejection>,
> {
    match token_claims(secret, token) {
        Some(claims) => match rejection(claims, PRODUCT_IDENTIFIER@, now) {
            Some(reason) => Some(Err(reason)),
            None => Some(Ok(claims)),
        },
        None => None,
    }
}

impl BearerJwt {
    /// Authenticates `token` with `jwt`, then validates its claims at the time
    /// `now`: the issuer, the time of issue, the expiry, in this order.
    pub fn extract_at(jwt: &Jwt, token: &str, now: u64) -> (bearer: Result<BearerJwt, AuthError>)
        ensures
            match presented(jwt.secret(), token@, now) {
                Some(Ok(claims)) => bearer matches Ok(found) && found.0@ == claims,
                Some(Err(reason)) => bearer == Err::<BearerJwt, AuthError>(
                    AuthError::ClaimsRejected { reason },
                ),
                None => bearer matches Err(AuthError::SignatureInvalid { .. }),
            },
    {
        let claims = match jwt.verify(token) {
            Ok(claims) => claims,
            Err(error) => {
                return Err(AuthError::SignatureInvalid { inner_error: error });
            },
        };
        match claims.validate_at(now) {
            Ok(()) => Ok(BearerJwt(claims)),
            Err(reason) => Err(AuthError::ClaimsRejected { reason }),
        }
    }

    /// Authenticates `token` with `jwt`, then validates its claims at the time
    /// the clock shows.
    pub fn extract(jwt: &Jwt, token: &str) -> (bearer: Result<BearerJwt, AuthError>)
        ensures
            token_claims(jwt.secret(), token@) is None ==> bearer matches Err(
                AuthError::SignatureInvalid { .. },
            ),
            token_claims(jwt.secret(), token@) matches Some(claims) ==> exists|now: u64|
                match #[trigger] rejection(claims, PRODUCT_IDENTIFIER@, now) {
                    Some(reason) => bearer == Err::<BearerJwt, AuthError>(
                        AuthError::ClaimsRejected { reason },
                    ),
                    None => bearer matches Ok(found) && found.0@ == claims,
                },
    {
        let now = unix_now();
        let bearer = Self::extract_at(jwt, token, now as u64);
        proof {
            if token_claims(jwt.secret(), token@) is Some {
                let claims = token_claims(jwt.secret(), token@)->0;
                let reason = rejection(claims, PRODUCT_IDENTIFIER@, now as u64);
                assert(reason is Some || reason is None);
            }
        }
        bearer
    }
}

/// A token that was handed out for a set of claims reads back as these
/// claims under the same key. Presented between the time of issue and the
/// expiry, a token for claims of this service is accepted with these claims.
pub proof fn lemma_round_trip(secret: Seq<char>, claims: ClaimsView, token: Seq<char>, now: u64)
    requires
        issued_token(secret, claims) == Some(token),
    ensures
        token_claims(secret, token) == Some(claims),
        claims.issuer == PRODUCT_IDENTIFIER@ && claims.issued_at <= now <= claims.expires ==> presented(
            secret,
            token,
            now,
        ) == Some(Ok::<ClaimsView, ClaimsRejection>(claims)),
{
}

/// Whatever the `jwt` crate reads back from a token, where it is an object
/// with the fields that were written for a set of claims, in whatever order,
/// the token holds these claims.
pub proof fn lemma_reads_back_by_fields(secret: Seq<char>, claims: ClaimsView, token: Seq<char>)
    requires
        token_payload(secret, token) matches Some(JsonView::Object(entries)) && same_fields(
            entries,
            encoded(claims)->Object_0,
        ),
    ensures
        token_claims(secret, token) == Some(claims),
{
    lemma_decode_encode(claims);
    lemma_decoded_by_fields(token_payload(secret, token)->0->Object_0, encoded(claims)->Object_0);
}

} // verus!
