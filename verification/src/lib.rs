//! Verified core of a hotel-booking REST API.
//!
//! The crate covers the request-authorization pipeline (token issuance,
//! token validation, and the bearer-token gate), the registration and login
//! rules, and the pure request/response logic of the hotel, profile and
//! health endpoints. Network and database I/O live outside this crate; the
//! functions here take plain values (already-read headers, rows fetched from
//! the store, the current unix time) and return the decisions the handlers
//! act on.

pub mod enums;
pub mod middleware;
pub mod models;
pub mod routes;
pub mod settings;
pub mod utils;
