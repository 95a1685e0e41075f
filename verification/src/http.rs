pub mod api;
pub mod employee_handlers;
pub mod roster_handlers;

use vstd::prelude::*;

verus! {

/// Configuration for the HTTP server.
#[derive(Debug, Clone, PartialEq, Eq)]
pub struct HttpServerConfig<'a> {
    pub port: &'a str,
}

/// The static health payload, around the timestamp the caller sampled.
#[derive(Debug)]
pub struct HealthResponse {
    pub status: String,
    pub service: String,
    pub timestamp: String,
}

/// The health answer: a static healthy status, independent of the
/// database, carrying the moment it was produced.
pub fn health_check(timestamp: String) -> (r: HealthResponse)
    ensures
        r.status@ == "healthy"@,
        r.service@ == "your-service-name"@,
        r.timestamp == timestamp,
{
    HealthResponse {
        status: "healthy".to_owned(),
        service: "your-service-name".to_owned(),
        timestamp,
    }
}

} // verus!
