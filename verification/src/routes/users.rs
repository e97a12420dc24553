use vstd::prelude::*;
use vstd::string::*;

use crate::models::users::{AuthResponse, RegisterRequest, UpdateUserRequest, User, UserResponse};
use crate::utils::{
    create_jwt_token, jwt_claims_of, spec_minted_claims, spec_validated_claims,
};

verus! {

/// The hashing cost of the adaptive password hash.
pub const HASH_COST: u32 = 12;

/// An email is accepted when it contains an `@`.
pub open spec fn spec_email_valid(email: Seq<char>) -> bool {
    exists|i: int| 0 <= i < email.len() && email[i] == '@'
}

/// The width of a character in UTF-8, by code point range.
pub open spec fn spec_char_utf8_width(c: char) -> int {
    if c as u32 <= 0x7f {
        1
    } else if c as u32 <= 0x7ff {
        2
    } else if c as u32 <= 0xffff {
        3
    } else {
        4
    }
}

/// The length in bytes of a character sequence once encoded as UTF-8.
pub open spec fn spec_utf8_len(s: Seq<char>) -> int
    decreases s.len(),
{
    if s.len() == 0 {
        0
    } else {
        spec_utf8_len(s.drop_last()) + spec_char_utf8_width(s.last())
    }
}

/// A password is accepted when it is at least six bytes long in UTF-8.
pub open spec fn spec_password_valid(password: Seq<char>) -> bool {
    spec_utf8_len(password) >= 6
}

/// The generic credential rejection: deliberately the same for an unknown
/// email and for a wrong password.
pub open spec fn spec_invalid_credentials() -> Seq<char> {
    "Invalid email or password"@
}

/// What a password-check against this hash answers: `bcrypt::verify` is a
/// pure function of the password and the (salt-carrying) hash string.
pub uninterp spec fn bcrypt_matches(password: Seq<char>, hash: Seq<char>) -> bool;

/// Whether this string parses as a bcrypt hash (60 ASCII bytes, a bcrypt
/// version prefix, an in-range cost, valid base64). `bcrypt::verify`
/// answers at all exactly on such strings, whatever the password.
pub uninterp spec fn bcrypt_hash_wellformed(hash: Seq<char>) -> bool;

/// Relies on `bcrypt::hash`: the result is salted afresh on every call, so
/// nothing is said of its text beyond its shape — it is a well-formed
/// bcrypt hash, and the password it was derived from verifies against it.
#[verifier::external_body]
fn bcrypt_hash(password: &str, cost: u32) -> (r: Result<String, ()>)
    ensures
        r matches Ok(hash) ==> bcrypt_matches(password@, hash@),
        r matches Ok(hash) ==> bcrypt_hash_wellformed(hash@),
{
    bcrypt::hash(password, cost).map_err(|_| ())
}

/// Relies on `bcrypt::verify`: deterministic in the password and the hash
/// string. Whether it answers at all depends on the hash alone — parsing
/// the hash is the only failure path; any password is accepted (truncated
/// at 72 bytes, padded when empty).
#[verifier::external_body]
fn bcrypt_verify(password: &str, hash: &str) -> (r: Result<bool, ()>)
    ensures
        r is Ok <==> bcrypt_hash_wellformed(hash@),
        r matches Ok(m) ==> m == bcrypt_matches(password@, hash@),
{
    bcrypt::verify(password, hash).map_err(|_| ())
}

proof fn lemma_utf8_len_step(s: Seq<char>, i: int)
    requires
        0 <= i < s.len(),
    ensures
        spec_utf8_len(s.subrange(0, i + 1)) == spec_utf8_len(s.subrange(0, i))
            + spec_char_utf8_width(s[i]),
{
    assert(s.subrange(0, i + 1).drop_last() =~= s.subrange(0, i));
    assert(s.subrange(0, i + 1).last() == s[i]);
}

proof fn lemma_utf8_len_prefix_le(s: Seq<char>, i: int)
    requires
        0 <= i <= s.len(),
    ensures
        spec_utf8_len(s.subrange(0, i)) <= spec_utf8_len(s),
    decreases s.len() - i,
{
    if i == s.len() {
        assert(s.subrange(0, i) =~= s);
    } else {
        lemma_utf8_len_step(s, i);
        assert(spec_char_utf8_width(s[i]) >= 1);
        lemma_utf8_len_prefix_le(s, i + 1);
    }
}

fn char_utf8_width(c: char) -> (r: usize)
    ensures
        r == spec_char_utf8_width(c),
{
    let u = c as u32;
    if u <= 0x7f {
        1
    } else if u <= 0x7ff {
        2
    } else if u <= 0xffff {
        3
    } else {
        4
    }
}

fn password_meets_min_len(password: &str) -> (r: bool)
    ensures
        r == spec_password_valid(password@),
{
    let n = password.unicode_len();
    let mut total: usize = 0;
    let mut i: usize = 0;
    while i < n
        invariant
            n == password@.len(),
            i <= n,
            total == spec_utf8_len(password@.subrange(0, i as int)),
            total < 6,
        decreases n - i,
    {
        let width = char_utf8_width(password.get_char(i));
        proof {
            lemma_utf8_len_step(password@, i as int);
        }
        total = total + width;
        i = i + 1;
        if total >= 6 {
            proof {
                lemma_utf8_len_prefix_le(password@, i as int);
            }
            return true;
        }
    }
    proof {
        assert(password@.subrange(0, n as int) =~= password@);
    }
    false
}

fn email_contains_at(email: &str) -> (r: bool)
    ensures
        r == spec_email_valid(email@),
{
    let n = email.unicode_len();
    let mut i: usize = 0;
    while i < n
        invariant
            n == email@.len(),
            i <= n,
            forall|j: int| 0 <= j < i ==> email@[j] != '@',
        decreases n - i,
    {
        if email.get_char(i) == '@' {
            return true;
        }
        i = i + 1;
    }
    false
}

/// The registration input rules: the email must contain an `@` and the
/// password must be at least six characters; each violation answers 400
/// with its own message, the email checked first.
pub fn register_validate(request: &RegisterRequest) -> (r: Result<(), (u16, String)>)
    ensures
        r is Ok <==> spec_email_valid(request.email@) && spec_password_valid(request.password@),
        !spec_email_valid(request.email@) ==> (r matches Err(e) && e.0 == 400 && e.1@
            == "Invalid email format"@),
        spec_email_valid(request.email@) && !spec_password_valid(request.password@) ==> (
        r matches Err(e) && e.0 == 400 && e.1@ == "Password must be at least 6 characters"@),
{
    if !email_contains_at(request.email.as_str()) {
        return Err((400, String::from_str("Invalid email format")));
    }
    if !password_meets_min_len(request.password.as_str()) {
        return Err((400, String::from_str("Password must be at least 6 characters")));
    }
    Ok(())
}

/// Hashes the password for storage with the configured cost; the raw
/// password goes no further than this call.
pub fn hash_password(password: &str) -> (r: Result<String, (u16, String)>)
    ensures
        r matches Ok(hash) ==> bcrypt_matches(password@, hash@) && bcrypt_hash_wellformed(hash@),
        r matches Err(e) ==> e.0 == 500 && e.1@ == "Failed to hash password"@,
{
    match bcrypt_hash(password, HASH_COST) {
        Ok(hash) => Ok(hash),
        Err(()) => Err((500, String::from_str("Failed to hash password"))),
    }
}

/// The head of `POST /auth/register`, before the store is touched: checks
/// the input rules and, when they hold, hashes the password for storage.
/// The answer is the hash to persist, or exactly the rejection the rules
/// demand.
pub fn register_prepare(request: &RegisterRequest) -> (r: Result<String, (u16, String)>)
    ensures
        r matches Ok(hash) ==> ({
            &&& spec_email_valid(request.email@)
            &&& spec_password_valid(request.password@)
            &&& bcrypt_matches(request.password@, hash@)
            &&& bcrypt_hash_wellformed(hash@)
        }),
        !spec_email_valid(request.email@) ==> (r matches Err(e) && e.0 == 400 && e.1@
            == "Invalid email format"@),
        spec_email_valid(request.email@) && !spec_password_valid(request.password@) ==> (
        r matches Err(e) && e.0 == 400 && e.1@ == "Password must be at least 6 characters"@),
        spec_email_valid(request.email@) && spec_password_valid(request.password@) && r is Err
            ==> (r matches Err(e) && e.0 == 500 && e.1@ == "Failed to hash password"@),
{
    register_validate(request)?;
    hash_password(request.password.as_str())
}

/// The 400 answer when persisting a new user fails: a uniqueness violation
/// on the email names the conflict, any other store failure stays generic.
pub fn user_creation_error(duplicate_email: bool) -> (r: (u16, String))
    ensures
        r.0 == 400,
        duplicate_email ==> r.1@ == "Email already exists"@,
        !duplicate_email ==> r.1@ == "Failed to create user"@,
{
    if duplicate_email {
        (400, String::from_str("Email already exists"))
    } else {
        (400, String::from_str("Failed to create user"))
    }
}

/// The tail of `POST /auth/register`, once the user row exists: mints a
/// token for the new identity and answers 201 with the public user and the
/// token. Minting cannot fail, so this always succeeds, and the minted
/// token validates immediately.
pub fn register_finish(user: &User, jwt_secret: &str, jwt_expire_hours: i64, now: i64) -> (r:
    Result<(u16, AuthResponse), (u16, String)>)
    requires
        0 <= now,
        1 <= jwt_expire_hours,
        now + jwt_expire_hours * 3600 <= i64::MAX,
    ensures
        r is Ok,
        r matches Ok(res) ==> ({
            &&& res.0 == 201
            &&& res.1.user.id == user.id
            &&& res.1.user.email@ == user.email@
            &&& res.1.user.first_name@ == user.first_name@
            &&& res.1.user.last_name@ == user.last_name@
            &&& jwt_claims_of(res.1.token@, jwt_secret@) == Some(
                spec_minted_claims(user.id, user.email@, now, jwt_expire_hours),
            )
            &&& spec_validated_claims(res.1.token@, jwt_secret@, now as int) == Some(
                spec_minted_claims(user.id, user.email@, now, jwt_expire_hours),
            )
        }),
        r matches Err(e) ==> e.0 == 500 && e.1@ == "Failed to generate token"@,
{
    let token = match create_jwt_token(
        user.id,
        user.email.clone(),
        jwt_secret,
        jwt_expire_hours,
        now,
    ) {
        Ok(t) => t,
        Err(e) => {
            return Err(e);
        },
    };
    let response = AuthResponse {
        user: UserResponse {
            id: user.id,
            email: user.email.clone(),
            first_name: user.first_name.clone(),
            last_name: user.last_name.clone(),
        },
        token,
    };
    Ok((201, response))
}

/// The tail of `POST /auth/login`, once the stored hash has been checked
/// against the submitted password: a mismatch answers the generic 400, a
/// match mints a token whose subject is the user's id — and minting cannot
/// fail, so a match always succeeds.
pub fn login_with_password_check(
    user: &User,
    password_matches: bool,
    jwt_secret: &str,
    jwt_expire_hours: i64,
    now: i64,
) -> (r: Result<AuthResponse, (u16, String)>)
    requires
        0 <= now,
        1 <= jwt_expire_hours,
        now + jwt_expire_hours * 3600 <= i64::MAX,
    ensures
        !password_matches ==> (r matches Err(e) && e.0 == 400 && e.1@
            == spec_invalid_credentials()),
        r is Ok <==> password_matches,
        r matches Ok(a) ==> ({
            &&& a.user.id == user.id
            &&& a.user.email@ == user.email@
            &&& a.user.first_name@ == user.first_name@
            &&& a.user.last_name@ == user.last_name@
            &&& jwt_claims_of(a.token@, jwt_secret@) == Some(
                spec_minted_claims(user.id, user.email@, now, jwt_expire_hours),
            )
        }),
{
    if !password_matches {
        return Err((400, String::from_str("Invalid email or password")));
    }
    let token = match create_jwt_token(
        user.id,
        user.email.clone(),
        jwt_secret,
        jwt_expire_hours,
        now,
    ) {
        Ok(t) => t,
        Err(e) => {
            return Err(e);
        },
    };
    Ok(
        AuthResponse {
            user: UserResponse {
                id: user.id,
                email: user.email.clone(),
                first_name: user.first_name.clone(),
                last_name: user.last_name.clone(),
            },
            token,
        },
    )
}

/// `POST /auth/login`, once the store was asked for the email: an unknown
/// email and a wrong password answer the identical generic 400 — the caller
/// cannot tell which field was wrong; correct credentials answer with a
/// token whose embedded subject is the user's id. On a well-formed stored
/// hash the outcome is fully decided: success exactly on a matching
/// password; only a malformed hash in the store can answer 500.
pub fn login(
    user: Option<&User>,
    password: &str,
    jwt_secret: &str,
    jwt_expire_hours: i64,
    now: i64,
) -> (r: Result<AuthResponse, (u16, String)>)
    requires
        0 <= now,
        1 <= jwt_expire_hours,
        now + jwt_expire_hours * 3600 <= i64::MAX,
    ensures
        user is None ==> (r matches Err(e) && e.0 == 400 && e.1@ == spec_invalid_credentials()),
        r matches Ok(a) ==> ({
            &&& user matches Some(u)
            &&& bcrypt_matches(password@, u.password_hash@)
            &&& a.user.id == u.id
            &&& a.user.email@ == u.email@
            &&& a.user.first_name@ == u.first_name@
            &&& a.user.last_name@ == u.last_name@
            &&& jwt_claims_of(a.token@, jwt_secret@) == Some(
                spec_minted_claims(u.id, u.email@, now, jwt_expire_hours),
            )
        }),
        user matches Some(u) && !bcrypt_matches(password@, u.password_hash@) ==> r is Err,
        user matches Some(u) && bcrypt_matches(password@, u.password_hash@) && r is Err ==> (
        r matches Err(e) && e.0 == 500),
        user matches Some(u) ==> (bcrypt_hash_wellformed(u.password_hash@) ==> (r is Ok
            <==> bcrypt_matches(password@, u.password_hash@))),
        user matches Some(u) ==> ((bcrypt_hash_wellformed(u.password_hash@) && !bcrypt_matches(
            password@,
            u.password_hash@,
        )) ==> (r matches Err(e) && e.0 == 400 && e.1@ == spec_invalid_credentials())),
{
    match user {
        None => Err((400, String::from_str("Invalid email or password"))),
        Some(u) => match bcrypt_verify(password, u.password_hash.as_str()) {
            Ok(password_matches) => login_with_password_check(
                u,
                password_matches,
                jwt_secret,
                jwt_expire_hours,
                now,
            ),
            Err(()) => Err((500, String::from_str("Failed to verify password"))),
        },
    }
}

/// `GET /auth/profile`, once the store was asked for the authenticated
/// subject: the public user, or 404 when the row is gone.
pub fn profile(user: Option<User>) -> (r: Result<UserResponse, (u16, String)>)
    ensures
        r is Ok <==> user is Some,
        user matches Some(u) ==> (r matches Ok(resp) && resp.id == u.id && resp.email@
            == u.email@ && resp.first_name@ == u.first_name@ && resp.last_name@
            == u.last_name@),
        r matches Err(e) ==> e.0 == 404 && e.1@ == "User not found"@,
{
    match user {
        Some(u) => Ok(UserResponse::from(u)),
        None => Err((404, String::from_str("User not found"))),
    }
}

/// The profile partial-update rule: a name that is present in the request
/// overwrites, one that is absent preserves the stored value; id, email,
/// password hash and creation timestamp are never touched, and the update
/// timestamp is always refreshed.
pub fn apply_profile_update(user: &User, request: &UpdateUserRequest, now: i64) -> (r: User)
    ensures
        r.id == user.id,
        r.email@ == user.email@,
        r.password_hash@ == user.password_hash@,
        request.first_name matches Some(v) ==> r.first_name@ == v@,
        request.first_name is None ==> r.first_name@ == user.first_name@,
        request.last_name matches Some(v) ==> r.last_name@ == v@,
        request.last_name is None ==> r.last_name@ == user.last_name@,
        r.created_at == user.created_at,
        r.updated_at == now,
{
    User {
        id: user.id,
        email: user.email.clone(),
        password_hash: user.password_hash.clone(),
        first_name: match &request.first_name {
            Some(v) => v.clone(),
            None => user.first_name.clone(),
        },
        last_name: match &request.last_name {
            Some(v) => v.clone(),
            None => user.last_name.clone(),
        },
        created_at: user.created_at,
        updated_at: now,
    }
}

/// `PUT /auth/profile`, once the store has applied the update: the public
/// user, or 404 when the authenticated subject's row is gone.
pub fn update_profile(user: Option<User>) -> (r: Result<UserResponse, (u16, String)>)
    ensures
        r is Ok <==> user is Some,
        user matches Some(u) ==> (r matches Ok(resp) && resp.id == u.id && resp.email@
            == u.email@ && resp.first_name@ == u.first_name@ && resp.last_name@
            == u.last_name@),
        r matches Err(e) ==> e.0 == 404 && e.1@ == "User not found"@,
{
    match user {
        Some(u) => Ok(UserResponse::from(u)),
        None => Err((404, String::from_str("User not found"))),
    }
}

} // verus!
