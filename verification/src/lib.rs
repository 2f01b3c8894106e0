//! Authorization and credential core of an identity service.
//!
//! * [`grants`]: grant identifiers, and the check that a held set of grants
//!   satisfies what an operation requires, under `And` or `Or`.
//! * [`claims`]: what a token asserts of a user, how claims are issued from a
//!   user's grants, and when presented claims are accepted.
//! * [`json`] and [`token`]: the claims as a token's payload, signing with
//!   the service's key, and the authentication of a presented token.
//! * [`hasher`]: Argon2 password hashes, and a verification that costs the
//!   same whether or not the user exists.
//! * [`login`]: the login that ties the two together.
//! * [`assignment`]: the assignment of grants to users, one row per pair,
//!   set by an upsert that never duplicates a row.
//! * [`api`] and [`manage`]: what each operation of the service requires and
//!   prepares.
//! * [`dto`], [`models`], [`error`]: the records and errors that pass through.
//!
//! Every function whose result can be stated carries a contract, stated over
//! the views of its arguments, and is verified against it. Calls into outside
//! crates stand behind small functions whose contracts are trusted: their doc
//! comments say what is taken on trust. Of what such a call hands back as an
//! opaque value, or draws at random, nothing is stated.

pub mod api;
pub mod assignment;
pub mod claims;
pub mod clock;
pub mod decimal;
pub mod dto;
pub mod error;
pub mod grants;
pub mod hasher;
pub mod json;
pub mod login;
pub mod manage;
pub mod models;
pub mod services;
mod text;
pub mod token;
