use vstd::prelude::*;

verus! {

/// Failure states of the request-authorization gate: either no bearer token
/// could be extracted from the request, or one was extracted and rejected.
#[derive(Clone, Copy, Debug, PartialEq, Eq, Structural)]
pub enum AuthError {
    MissingToken,
    InvalidToken,
}

impl AuthError {
    /// Both gate failures answer with HTTP 401.
    pub fn status_code(&self) -> (r: u16)
        ensures
            r == 401,
    {
        401
    }

    /// The fixed, deliberately uninformative message for each failure state.
    pub fn message(&self) -> (r: &str)
        ensures
            *self == AuthError::MissingToken ==> r@ == "Missing authorization token"@,
            *self == AuthError::InvalidToken ==> r@ == "Invalid token"@,
    {
        match self {
            AuthError::MissingToken => "Missing authorization token",
            AuthError::InvalidToken => "Invalid token",
        }
    }
}

/// Outcome of probing one downstream service.
#[derive(Clone, Copy, Debug, PartialEq, Eq, Structural)]
pub enum HealthStatus {
    Available,
    Unavailable,
}

/// The string form reported by the health endpoints.
pub open spec fn spec_status_str(status: HealthStatus) -> Seq<char> {
    if status == HealthStatus::Available {
        "ok"@
    } else {
        "unavailable"@
    }
}

impl HealthStatus {
    pub fn as_str(&self) -> (r: &str)
        ensures
            r@ == spec_status_str(*self),
    {
        match self {
            HealthStatus::Available => "ok",
            HealthStatus::Unavailable => "unavailable",
        }
    }
}

/// The downstream services the readiness probe reports on.
#[derive(Clone, Copy, Debug, PartialEq, Eq, Structural)]
pub enum ServiceName {
    Redis,
    Postgres,
}

/// The string form reported by the health endpoints.
pub open spec fn spec_service_str(name: ServiceName) -> Seq<char> {
    if name == ServiceName::Redis {
        "redis"@
    } else {
        "postgres"@
    }
}

impl ServiceName {
    pub fn as_str(&self) -> (r: &str)
        ensures
            r@ == spec_service_str(*self),
    {
        match self {
            ServiceName::Redis => "redis",
            ServiceName::Postgres => "postgres",
        }
    }
}

} // verus!
