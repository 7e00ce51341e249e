//! Capability tokens as signed text.
//!
//! A token is a JSON Web Token signed with HMAC-SHA-512 under the service's
//! secret. Signing and checking are done by `jsonwebtoken`; the claims travel
//! through here as JSON text. Tokens do not expire: a note's own expiry
//! decides how long a claim is worth anything.

use vstd::prelude::*;
use crate::errors::ServerError;

verus! {

/// The error type of `jsonwebtoken`.
#[verifier::external_type_specification]
#[verifier::external_body]
pub struct ExTokenError(jsonwebtoken::errors::Error);

/// The token that `jsonwebtoken::encode` makes of JSON claims under a secret
/// with HMAC-SHA-512, where it makes one.
pub uninterp spec fn signed_token(claims_json: Seq<char>, secret: Seq<u8>) -> Option<Seq<char>>;

/// The JSON claims that `jsonwebtoken::decode` hands out for a token under a
/// secret, with HS512 as the one algorithm, no required claims and no expiry
/// check; nothing where it refuses the token.
pub uninterp spec fn token_claims(token: Seq<char>, secret: Seq<u8>) -> Option<Seq<char>>;

/// Calls `jsonwebtoken::encode` with an HS512 header on the claims, which are
/// parsed from JSON text first. The signature is an HMAC, so the token is a
/// function of claims and secret; it is given the name `signed_token`.
#[verifier::external_body]
fn hs512_encode(claims_json: &str, secret: &[u8]) -> (r: Result<
    String,
    jsonwebtoken::errors::Error,
>)
    ensures
        r matches Ok(token) ==> signed_token(claims_json@, secret@) == Some(token@),
        r is Err ==> signed_token(claims_json@, secret@).is_none(),
{
    let claims: serde_json::Value = serde_json::from_str(claims_json)?;
    let header = jsonwebtoken::Header::new(jsonwebtoken::Algorithm::HS512);
    jsonwebtoken::encode(&header, &claims, &jsonwebtoken::EncodingKey::from_secret(secret))
}

/// Calls `jsonwebtoken::decode` for HS512 with no required claims and no
/// expiry check, and hands the claims back as JSON text. What comes back
/// depends on token and secret alone; it is given the name `token_claims`.
#[verifier::external_body]
fn hs512_decode(token: &str, secret: &[u8]) -> (r: Result<String, jsonwebtoken::errors::Error>)
    ensures
        r matches Ok(claims) ==> token_claims(token@, secret@) == Some(claims@),
        r is Err ==> token_claims(token@, secret@).is_none(),
{
    let mut validation = jsonwebtoken::Validation::new(jsonwebtoken::Algorithm::HS512);
    validation.required_spec_claims = std::collections::HashSet::new();
    validation.validate_exp = false;
    let key = jsonwebtoken::DecodingKey::from_secret(secret);
    let data = jsonwebtoken::decode::<serde_json::Value>(token, &key, &validation)?;
    Ok(data.claims.to_string())
}

/// A token as a request may carry it.
#[derive(Clone, Debug, PartialEq, Eq)]
pub struct JWTAuthQuery {
    pub token: Option<String>,
}

/// A token that a request carries.
#[derive(Clone, Debug, PartialEq, Eq)]
pub struct JWTAuth {
    pub token: String,
}

impl JWTAuthQuery {
    /// The token, where the request carries one.
    pub fn unwrap(&self) -> (r: Option<JWTAuth>)
        ensures
            r.is_some() == self.token.is_some(),
            r matches Some(auth) ==> auth.token@ == self.token.unwrap()@,
    {
        match &self.token {
            Some(token) => Some(JWTAuth { token: token.clone() }),
            None => None,
        }
    }
}

impl JWTAuth {
    /// Signs claims, given as JSON text, under the service's secret.
    ///
    /// Fails only where the signer does, and then with `JWTError`, which is
    /// answered as an internal error.
    pub fn new(claims_json: &str, secret: &[u8]) -> (r: Result<String, ServerError>)
        ensures
            match signed_token(claims_json@, secret@) {
                Some(token) => r matches Ok(text) && text@ == token,
                None => r == Err::<String, ServerError>(ServerError::JWTError),
            },
    {
        match hs512_encode(claims_json, secret) {
            Ok(token) => Ok(token),
            Err(_) => Err(ServerError::JWTError),
        }
    }

    /// Checks the token's signature under the service's secret and gives its
    /// claims as JSON text. The token's age is not looked at.
    ///
    /// A token that is refused, for whatever cause, gives no access: the
    /// error is `GeneralNoAccess`, which is answered as forbidden.
    pub fn decode(&self, secret: &[u8]) -> (r: Result<String, ServerError>)
        ensures
            match token_claims(self.token@, secret@) {
                Some(claims) => r matches Ok(text) && text@ == claims,
                None => r == Err::<String, ServerError>(ServerError::GeneralNoAccess),
            },
    {
        match hs512_decode(self.token.as_str(), secret) {
            Ok(claims) => Ok(claims),
            Err(_) => Err(ServerError::GeneralNoAccess),
        }
    }

    /// Whether the token is accepted under the service's secret, as `decode`
    /// accepts it.
    pub fn verify(&self, secret: &[u8]) -> (b: bool)
        ensures
            b == token_claims(self.token@, secret@).is_some(),
    {
        hs512_decode(self.token.as_str(), secret).is_ok()
    }
}

} // verus!
