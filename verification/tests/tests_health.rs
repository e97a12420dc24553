use hotel_booking::enums::HealthStatus;
use hotel_booking::routes::health::{check_services, is_ready, live, ready};

#[test]
fn test_health_live_200_ok() {
    let resp = live();
    assert_eq!(resp.status, "ok");
}

#[test]
fn test_health_ready_200_ok() {
    let resp = ready(HealthStatus::Available, HealthStatus::Available)
        .expect("all services up must answer 200");
    assert_eq!(resp.status, "ok");
    assert_eq!(resp.services.len(), 2);
    assert_eq!(resp.services[0].name, "postgres");
    assert_eq!(resp.services[0].status, "ok");
    assert_eq!(resp.services[1].name, "redis");
    assert_eq!(resp.services[1].status, "ok");
}

#[test]
fn test_health_ready_503_service_unavailable() {
    let e = ready(HealthStatus::Available, HealthStatus::Unavailable)
        .expect_err("a downed service must answer 503");
    assert_eq!(e.0, 503);
    assert_eq!(e.1.status, "unavailable");
    assert_eq!(e.1.services.len(), 2);
    assert_eq!(e.1.services[0].name, "postgres");
    assert_eq!(e.1.services[0].status, "ok");
    assert_eq!(e.1.services[1].name, "redis");
    assert_eq!(e.1.services[1].status, "unavailable");
}

#[test]
fn test_check_services_reports_each_status() {
    let services = check_services(HealthStatus::Unavailable, HealthStatus::Available);
    assert_eq!(services.len(), 2);
    assert_eq!(services[0].name, "postgres");
    assert_eq!(services[0].status, "unavailable");
    assert_eq!(services[1].name, "redis");
    assert_eq!(services[1].status, "ok");
}

#[test]
fn test_is_ready_requires_every_service() {
    assert!(is_ready(HealthStatus::Available, HealthStatus::Available));
    assert!(!is_ready(HealthStatus::Unavailable, HealthStatus::Available));
    assert!(!is_ready(HealthStatus::Available, HealthStatus::Unavailable));
    assert!(!is_ready(HealthStatus::Unavailable, HealthStatus::Unavailable));
}
