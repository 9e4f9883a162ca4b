//! Signed tokens, checked by the `jsonwebtoken` crate.
//!
//! Nothing in this file is proved.

use vstd::prelude::*;

verus! {

/// `jsonwebtoken::errors::Error`, carried as an opaque value.
#[verifier::external_type_specification]
#[verifier::external_body]
pub struct ExTokenError(jsonwebtoken::errors::Error);

/// `jsonwebtoken::decode` with `DecodingKey::from_secret` and
/// `Validation::new` for HS256: the claims of `token` as a JSON value, where
/// its signature fits `secret` and it has not expired.
///
/// Expiry is checked against the system clock, so one token may pass now
/// and fail later: nothing is stated of the result. No token and no secret
/// makes the call panic; it halts only on a machine whose clock stands
/// before 1970.
#[verifier::external_body]
pub(crate) fn decode_hs256(token: &str, secret: &[u8]) -> (decoded: Result<
    serde_json::Value,
    jsonwebtoken::errors::Error,
>) {
    let key = jsonwebtoken::DecodingKey::from_secret(secret);
    let validation = jsonwebtoken::Validation::new(jsonwebtoken::Algorithm::HS256);
    jsonwebtoken::decode::<serde_json::Value>(token, &key, &validation).map(|data| data.claims)
}

} // verus!
