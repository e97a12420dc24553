use vstd::prelude::*;

verus! {

/// Body of `GET /health/live`.
#[derive(Clone, Debug)]
pub struct HealthLiveResponse {
    pub status: String,
}

/// One downstream service's probe result inside the readiness report.
#[derive(Clone, Debug)]
pub struct HealthServiceResponse {
    pub name: String,
    pub status: String,
}

/// Body of `GET /health/ready`.
#[derive(Clone, Debug)]
pub struct HealthReadyResponse {
    pub status: String,
    pub services: Vec<HealthServiceResponse>,
}

} // verus!
