use vstd::prelude::*;

use crate::clock::{now, Timestamp};
use crate::services::health::{connection_text, overall_status_text};

verus! {

/// The name the service reports.
pub open spec fn service_name() -> Seq<char> {
    "sistema_bancario_hnl"@
}

/// The basic health answer.
pub struct HealthResponse {
    pub status: String,
    pub timestamp: Timestamp,
    pub service: String,
    pub version: String,
}

/// The health answer with the state of the backends.
pub struct DetailedHealthResponse {
    pub status: String,
    pub database: String,
    pub tigerbeetle: String,
    pub timestamp: Timestamp,
    pub service: String,
    pub version: String,
}

/// The HTTP status of a service that cannot serve.
pub const SERVICE_UNAVAILABLE: u16 = 503;

/// The overall status given whether the database and the ledger answered.
pub fn determine_overall_status(db: bool, tb: bool) -> (res: &'static str)
    ensures
        res@ == overall_status_text(db, tb),
{
    proof {
        reveal_strlit("healthy");
        reveal_strlit("critical");
        reveal_strlit("degraded");
    }
    match (db, tb) {
        (true, true) => "healthy",
        (false, false) => "critical",
        _ => "degraded",
    }
}

/// The state shown for a backend.
pub fn status_string(healthy: bool) -> (res: String)
    ensures
        res@ == connection_text(healthy),
{
    proof {
        reveal_strlit("connected");
        reveal_strlit("disconnected");
    }
    (if healthy { "connected" } else { "disconnected" }).to_string()
}

fn healthy_response(version: &str) -> (res: HealthResponse)
    ensures
        res.status@ == "healthy"@,
        res.service@ == service_name(),
        res.version@ == version@,
{
    proof {
        reveal_strlit("healthy");
        reveal_strlit("sistema_bancario_hnl");
    }
    HealthResponse {
        status: "healthy".to_string(),
        timestamp: now(),
        service: "sistema_bancario_hnl".to_string(),
        version: version.to_string(),
    }
}

/// The basic health answer: always healthy.
pub fn health_check(version: &str) -> (res: HealthResponse)
    ensures
        res.status@ == "healthy"@,
        res.service@ == service_name(),
        res.version@ == version@,
{
    healthy_response(version)
}

/// The health answer given whether the database and the ledger answered
///: unavailable when both are down, else their states.
pub fn health_check_db(db_health: bool, tb_health: bool, version: &str) -> (res: Result<DetailedHealthResponse, u16>)
    ensures
        (!db_health && !tb_health) <==> res is Err,
        res matches Err(code) ==> code == SERVICE_UNAVAILABLE,
        res matches Ok(r) ==> {
            &&& r.status@ == overall_status_text(db_health, tb_health)
            &&& r.database@ == connection_text(db_health)
            &&& r.tigerbeetle@ == connection_text(tb_health)
            &&& r.service@ == service_name()
            &&& r.version@ == version@
        },
{
    proof {
        reveal_strlit("critical");
        reveal_strlit("sistema_bancario_hnl");
    }
    let status = determine_overall_status(db_health, tb_health);
    if !db_health && !tb_health {
        assert(status@ == "critical"@);
        return Err(SERVICE_UNAVAILABLE);
    }
    Ok(DetailedHealthResponse {
        status: status.to_string(),
        database: status_string(db_health),
        tigerbeetle: status_string(tb_health),
        timestamp: now(),
        service: "sistema_bancario_hnl".to_string(),
        version: version.to_string(),
    })
}

/// The health answer for the ledger alone:
/// unavailable when it did not answer.
pub fn health_check_tigerbeetle(tb_health: bool, version: &str) -> (res: Result<HealthResponse, u16>)
    ensures
        !tb_health <==> res is Err,
        res matches Err(code) ==> code == SERVICE_UNAVAILABLE,
        res matches Ok(r) ==> r.status@ == "healthy"@ && r.service@ == service_name() && r.version@ == version@,
{
    if !tb_health {
        return Err(SERVICE_UNAVAILABLE);
    }
    Ok(healthy_response(version))
}

} // verus!
