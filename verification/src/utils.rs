use vstd::prelude::*;
use vstd::string::*;

use crate::enums::AuthError;
use crate::models::users::{Claims, ClaimsModel};

verus! {

/// The compact signed token that `jsonwebtoken::encode` produces for these
/// claims under this symmetric secret (HS256, the default header). The
/// encoding is deterministic: it depends on the claims and the secret alone.
pub uninterp spec fn jwt_token_of(claims: ClaimsModel, secret: Seq<char>) -> Seq<char>;

/// The claims that `jsonwebtoken::decode` recovers from a candidate token
/// string under this secret, before any expiry check: `Some` exactly when
/// the token is well-formed, carries the expected fields, and its signature
/// verifies under the secret; `None` otherwise.
pub uninterp spec fn jwt_claims_of(token: Seq<char>, secret: Seq<char>) -> Option<ClaimsModel>;

/// Relies on `jsonwebtoken::encode` (HS256 under the default header):
/// signing is a pure function of the claims and the secret, and
/// `jsonwebtoken::decode` under the same secret recovers exactly the claims
/// that were signed. The expiry must be non-negative because the decoder
/// reads it as an unsigned number. The call cannot fail for this usage: an
/// HMAC key may be any byte string (`hmac`'s `new_from_slice` accepts every
/// length), and serializing this fixed map of four plain fields is
/// infallible — so success is promised outright.
#[verifier::external_body]
fn jwt_encode(claims: &Claims, secret: &str) -> (r: Result<String, ()>)
    requires
        0 <= claims.exp,
    ensures
        r is Ok,
        r is Ok ==> r->Ok_0@ == jwt_token_of(claims@, secret@),
        r is Ok ==> jwt_claims_of(r->Ok_0@, secret@) == Some(claims@),
{
    let mut payload = serde_json::Map::new();
    payload.insert("sub".to_string(), claims.sub.into());
    payload.insert("email".to_string(), claims.email.clone().into());
    payload.insert("exp".to_string(), claims.exp.into());
    payload.insert("iat".to_string(), claims.iat.into());
    jsonwebtoken::encode(
        &jsonwebtoken::Header::default(),
        &serde_json::Value::Object(payload),
        &jsonwebtoken::EncodingKey::from_secret(secret.as_bytes()),
    )
    .map_err(|_| ())
}

/// Relies on `jsonwebtoken::decode` (HS256, expiry presence required). The
/// crate's own expiry-time check is switched off here so that the result is
/// a pure function of the token and the secret; the caller performs the
/// expiry check itself against an injected clock.
#[verifier::external_body]
fn jwt_decode(token: &str, secret: &str) -> (r: Result<Claims, ()>)
    ensures
        r is Ok <==> jwt_claims_of(token@, secret@) is Some,
        r is Ok ==> jwt_claims_of(token@, secret@) == Some(r->Ok_0@),
{
    let mut validation = jsonwebtoken::Validation::default();
    validation.validate_exp = false;
    let c = jsonwebtoken::decode::<serde_json::Value>(
        token,
        &jsonwebtoken::DecodingKey::from_secret(secret.as_bytes()),
        &validation,
    )
    .map_err(|_| ())?
    .claims;
    Ok(Claims {
        sub: c.get("sub").and_then(|v| v.as_i64()).and_then(|v| v.try_into().ok()).ok_or(())?,
        email: c.get("email").and_then(|v| v.as_str()).ok_or(())?.to_string(),
        exp: c.get("exp").and_then(|v| v.as_i64()).ok_or(())?,
        iat: c.get("iat").and_then(|v| v.as_i64()).ok_or(())?,
    })
}

/// The claims that issuance embeds in a token minted at time `now` (unix
/// seconds) with the configured lifetime: expiry is issued-at plus the
/// lifetime in seconds.
pub open spec fn spec_minted_claims(
    user_id: i32,
    email: Seq<char>,
    now: i64,
    expire_hours: i64,
) -> ClaimsModel {
    ClaimsModel {
        sub: user_id as int,
        email: email,
        exp: now + expire_hours * 3600,
        iat: now as int,
    }
}

/// Token issuance: builds the claims for the authenticated user and signs
/// them with the configured secret. `now` is the current unix time, injected
/// by the caller. Signing with a symmetric key cannot fail, so issuance
/// always succeeds; the error shape remains only for the day the signing
/// scheme changes.
pub fn create_jwt_token(
    user_id: i32,
    email: String,
    jwt_secret: &str,
    jwt_expire_hours: i64,
    now: i64,
) -> (r: Result<String, (u16, String)>)
    requires
        0 <= now,
        1 <= jwt_expire_hours,
        now + jwt_expire_hours * 3600 <= i64::MAX,
    ensures
        r is Ok,
        r matches Ok(token) ==> ({
            &&& token@ == jwt_token_of(
                spec_minted_claims(user_id, email@, now, jwt_expire_hours),
                jwt_secret@,
            )
            &&& jwt_claims_of(token@, jwt_secret@) == Some(
                spec_minted_claims(user_id, email@, now, jwt_expire_hours),
            )
        }),
        r matches Err(e) ==> e.0 == 500 && e.1@ == "Failed to generate token"@,
{
    let exp: i64 = now + jwt_expire_hours * 3600;
    let claims = Claims { sub: user_id, email, exp, iat: now };
    match jwt_encode(&claims, jwt_secret) {
        Ok(token) => Ok(token),
        Err(()) => Err((500, String::from_str("Failed to generate token"))),
    }
}

/// Validation outcome for a candidate token at time `now`: the embedded
/// claims when the signature verifies and the token has not expired, and
/// nothing otherwise. Expiry is exclusive: a token is rejected from the
/// moment `now` reaches its expiry timestamp.
pub open spec fn spec_validated_claims(
    token: Seq<char>,
    secret: Seq<char>,
    now: int,
) -> Option<ClaimsModel> {
    match jwt_claims_of(token, secret) {
        Some(claims) => if now < claims.exp {
            Some(claims)
        } else {
            None
        },
        None => None,
    }
}

/// Token validation: recovers the embedded claims if the signature verifies
/// under the secret and the token has not expired at time `now`. Every
/// failure — malformed token, wrong signature, or expiry — collapses into
/// the single `InvalidToken` answer.
pub fn extract_user_from_token(token: &str, secret: &str, now: i64) -> (r: Result<
    Claims,
    AuthError,
>)
    ensures
        r is Ok <==> spec_validated_claims(token@, secret@, now as int) is Some,
        r matches Ok(claims) ==> spec_validated_claims(token@, secret@, now as int) == Some(
            claims@,
        ),
        r matches Err(e) ==> e == AuthError::InvalidToken,
{
    match jwt_decode(token, secret) {
        Ok(claims) => {
            if now < claims.exp {
                Ok(claims)
            } else {
                Err(AuthError::InvalidToken)
            }
        },
        Err(()) => Err(AuthError::InvalidToken),
    }
}

/// A token whose embedded claims carry a lifetime of `lifetime_hours` from
/// their issue time validates exactly while the clock has not reached
/// issued-at plus the lifetime in seconds — however the token was obtained.
pub proof fn lemma_validation_window(
    token: Seq<char>,
    secret: Seq<char>,
    claims: ClaimsModel,
    lifetime_hours: int,
    now: int,
)
    requires
        jwt_claims_of(token, secret) == Some(claims),
        claims.exp == claims.iat + lifetime_hours * 3600,
    ensures
        spec_validated_claims(token, secret, now) is Some <==> now < claims.iat + lifetime_hours
            * 3600,
{
}

/// A token that does not decode under the secret in hand — one signed under
/// a different secret, or one altered in any byte so that its shape or
/// signature no longer verifies — is rejected at every clock reading. That
/// a non-matching secret or a tampered byte defeats decoding is the MAC's
/// own promise and stands here as the hypothesis.
pub proof fn lemma_undecodable_token_rejected(token: Seq<char>, secret: Seq<char>, now: int)
    requires
        jwt_claims_of(token, secret) is None,
    ensures
        spec_validated_claims(token, secret, now) is None,
{
}

/// Round trip: while a token is unexpired, validation hands back exactly the
/// claims embedded at issuance — no field is altered in transit.
pub proof fn lemma_claims_round_trip(
    token: Seq<char>,
    secret: Seq<char>,
    claims: ClaimsModel,
    now: int,
)
    requires
        jwt_claims_of(token, secret) == Some(claims),
        now < claims.exp,
    ensures
        spec_validated_claims(token, secret, now) == Some(claims),
{
}

} // verus!
