use vstd::prelude::*;
use vstd::string::*;

use crate::enums::{spec_service_str, spec_status_str, HealthStatus, ServiceName};
use crate::models::health::{HealthLiveResponse, HealthReadyResponse, HealthServiceResponse};

verus! {

/// `GET /health/live`: the process answers as long as it runs.
pub fn live() -> (r: HealthLiveResponse)
    ensures
        r.status@ == "ok"@,
{
    HealthLiveResponse { status: String::from_str("ok") }
}

/// The per-service report of the readiness probe: the relational store
/// first, the cache second.
pub fn check_services(postgres: HealthStatus, redis: HealthStatus) -> (r: Vec<
    HealthServiceResponse,
>)
    ensures
        r@.len() == 2,
        r@[0].name@ == spec_service_str(ServiceName::Postgres),
        r@[0].status@ == spec_status_str(postgres),
        r@[1].name@ == spec_service_str(ServiceName::Redis),
        r@[1].status@ == spec_status_str(redis),
{
    let mut services: Vec<HealthServiceResponse> = Vec::new();
    services.push(
        HealthServiceResponse {
            name: String::from_str(ServiceName::Postgres.as_str()),
            status: String::from_str(postgres.as_str()),
        },
    );
    services.push(
        HealthServiceResponse {
            name: String::from_str(ServiceName::Redis.as_str()),
            status: String::from_str(redis.as_str()),
        },
    );
    services
}

/// Overall readiness: every probed service must be available.
pub fn is_ready(postgres: HealthStatus, redis: HealthStatus) -> (r: bool)
    ensures
        r == (postgres == HealthStatus::Available && redis == HealthStatus::Available),
{
    postgres == HealthStatus::Available && redis == HealthStatus::Available
}

/// `GET /health/ready`: 200 when every service is available, 503 otherwise.
/// Both answers carry the same body shape — the overall status and the
/// per-service report, which names each unavailable service.
pub fn ready(postgres: HealthStatus, redis: HealthStatus) -> (r: Result<
    HealthReadyResponse,
    (u16, HealthReadyResponse),
>)
    ensures
        r is Ok <==> postgres == HealthStatus::Available && redis == HealthStatus::Available,
        r matches Ok(resp) ==> ({
            &&& resp.status@ == "ok"@
            &&& resp.services@.len() == 2
            &&& resp.services@[0].name@ == spec_service_str(ServiceName::Postgres)
            &&& resp.services@[0].status@ == spec_status_str(postgres)
            &&& resp.services@[1].name@ == spec_service_str(ServiceName::Redis)
            &&& resp.services@[1].status@ == spec_status_str(redis)
        }),
        r matches Err(e) ==> ({
            &&& e.0 == 503
            &&& e.1.status@ == "unavailable"@
            &&& e.1.services@.len() == 2
            &&& e.1.services@[0].name@ == spec_service_str(ServiceName::Postgres)
            &&& e.1.services@[0].status@ == spec_status_str(postgres)
            &&& e.1.services@[1].name@ == spec_service_str(ServiceName::Redis)
            &&& e.1.services@[1].status@ == spec_status_str(redis)
        }),
{
    let services = check_services(postgres, redis);
    if is_ready(postgres, redis) {
        Ok(HealthReadyResponse { status: String::from_str("ok"), services })
    } else {
        Err((503, HealthReadyResponse { status: String::from_str("unavailable"), services }))
    }
}

} // verus!
