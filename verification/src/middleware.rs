use vstd::prelude::*;
use vstd::string::*;

use crate::enums::AuthError;
use crate::models::users::{Claims, ClaimsModel};
use crate::utils::{extract_user_from_token, spec_validated_claims};

verus! {

/// The token part of an authorization header value: the text after the
/// `"Bearer "` prefix, if the prefix is there.
pub open spec fn spec_bearer_token(header: Seq<char>) -> Option<Seq<char>> {
    if header.len() >= 7 && header.subrange(0, 7) == "Bearer "@ {
        Some(header.subrange(7, header.len() as int))
    } else {
        None
    }
}

/// The view of an optional header value.
pub open spec fn spec_header_view(authorization: Option<&str>) -> Option<Seq<char>> {
    match authorization {
        Some(h) => Some(h@),
        None => None,
    }
}

/// The whole gate as a function of the request's authorization header, the
/// configured secret and the clock: `MissingToken` when no bearer token can
/// be extracted, `InvalidToken` when one is extracted and rejected, and the
/// validated claims otherwise.
pub open spec fn spec_authorize(
    header: Option<Seq<char>>,
    secret: Seq<char>,
    now: int,
) -> Result<ClaimsModel, AuthError> {
    match header {
        Some(h) => match spec_bearer_token(h) {
            Some(token) => match spec_validated_claims(token, secret, now) {
                Some(claims) => Ok(claims),
                None => Err(AuthError::InvalidToken),
            },
            None => Err(AuthError::MissingToken),
        },
        None => Err(AuthError::MissingToken),
    }
}

fn has_bearer_prefix(header: &str) -> (r: bool)
    ensures
        r == (header@.len() >= 7 && header@.subrange(0, 7) == "Bearer "@),
{
    proof {
        reveal_strlit("Bearer ");
    }
    if header.unicode_len() < 7 {
        return false;
    }
    let r = header.get_char(0) == 'B' && header.get_char(1) == 'e' && header.get_char(2) == 'a'
        && header.get_char(3) == 'r' && header.get_char(4) == 'e' && header.get_char(5) == 'r'
        && header.get_char(6) == ' ';
    proof {
        if r {
            assert(header@.subrange(0, 7) =~= "Bearer "@);
        }
        if header@.subrange(0, 7) == "Bearer "@ {
            assert(forall|i: int| 0 <= i < 7 ==> header@[i] == header@.subrange(0, 7)[i]);
        }
    }
    r
}

/// The request-authorization gate. A protected handler runs only behind an
/// `Ok` from here; both failures answer 401 with the fixed message of the
/// failure state. `now` is the current unix time, injected by the caller.
pub fn auth_middleware(authorization: Option<&str>, jwt_secret: &str, now: i64) -> (r: Result<
    Claims,
    AuthError,
>)
    ensures
        r matches Ok(claims) ==> spec_authorize(
            spec_header_view(authorization),
            jwt_secret@,
            now as int,
        ) == Ok::<ClaimsModel, AuthError>(claims@),
        r matches Err(e) ==> spec_authorize(spec_header_view(authorization), jwt_secret@, now as int)
            == Err::<ClaimsModel, AuthError>(e),
{
    match authorization {
        None => Err(AuthError::MissingToken),
        Some(header) => {
            if !has_bearer_prefix(header) {
                Err(AuthError::MissingToken)
            } else {
                let token = header.substring_char(7, header.unicode_len());
                extract_user_from_token(token, jwt_secret, now)
            }
        },
    }
}

} // verus!
