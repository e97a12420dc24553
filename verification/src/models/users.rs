use vstd::prelude::*;

verus! {

/// A user row as the relational store holds it. Timestamps are unix seconds.
#[derive(Clone, Debug)]
pub struct User {
    pub id: i32,
    pub email: String,
    pub password_hash: String,
    pub first_name: String,
    pub last_name: String,
    pub created_at: i64,
    pub updated_at: i64,
}

/// Body of `POST /auth/register`.
#[derive(Clone, Debug)]
pub struct RegisterRequest {
    pub email: String,
    pub password: String,
    pub first_name: String,
    pub last_name: String,
}

/// Body of `POST /auth/login`.
#[derive(Clone, Debug)]
pub struct LoginRequest {
    pub email: String,
    pub password: String,
}

/// Body of `PUT /auth/profile`: a field that is absent is left unchanged.
#[derive(Clone, Debug)]
pub struct UpdateUserRequest {
    pub first_name: Option<String>,
    pub last_name: Option<String>,
}

/// The public projection of a user: the password hash and the timestamps
/// never leave the service.
#[derive(Clone, Debug)]
pub struct UserResponse {
    pub id: i32,
    pub email: String,
    pub first_name: String,
    pub last_name: String,
}

/// Successful registration or login: the public user plus a signed token.
#[derive(Clone, Debug)]
pub struct AuthResponse {
    pub user: UserResponse,
    pub token: String,
}

/// The identity-and-timing payload embedded (signed, not encrypted) in a
/// token: subject user id, email, issued-at and expiry, both unix seconds.
#[derive(Clone, Debug)]
pub struct Claims {
    pub sub: i32,
    pub email: String,
    pub exp: i64,
    pub iat: i64,
}

/// Mathematical shape of a claims value, used by the token contracts.
pub struct ClaimsModel {
    pub sub: int,
    pub email: Seq<char>,
    pub exp: int,
    pub iat: int,
}

impl View for Claims {
    type V = ClaimsModel;

    open spec fn view(&self) -> ClaimsModel {
        ClaimsModel {
            sub: self.sub as int,
            email: self.email@,
            exp: self.exp as int,
            iat: self.iat as int,
        }
    }
}

impl From<User> for UserResponse {
    fn from(user: User) -> (r: Self) {
        UserResponse {
            id: user.id,
            email: user.email,
            first_name: user.first_name,
            last_name: user.last_name,
        }
    }
}

impl vstd::std_specs::convert::FromSpecImpl<User> for UserResponse {
    open spec fn obeys_from_spec() -> bool {
        true
    }

    open spec fn from_spec(user: User) -> Self {
        UserResponse {
            id: user.id,
            email: user.email,
            first_name: user.first_name,
            last_name: user.last_name,
        }
    }
}

} // verus!
