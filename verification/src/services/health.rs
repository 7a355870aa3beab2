use vstd::prelude::*;

use crate::clock::{now, Timestamp};

verus! {

/// The state of the service and its backends.
pub struct HealthStatus {
    pub status: String,
    pub database: String,
    pub tigerbeetle: String,
    pub timestamp: Timestamp,
}

/// The overall status given the two backends: healthy when both answer,
/// critical when neither does, degraded otherwise.
pub open spec fn overall_status_text(db: bool, tb: bool) -> Seq<char> {
    if db && tb {
        "healthy"@
    } else if !db && !tb {
        "critical"@
    } else {
        "degraded"@
    }
}

/// The state shown for one backend.
pub open spec fn connection_text(healthy: bool) -> Seq<char> {
    if healthy {
        "connected"@
    } else {
        "disconnected"@
    }
}

/// Reports on the service's backends; the probes themselves are run by the
/// caller, which hands their outcomes in.
pub struct HealthService {}

impl HealthService {
    pub fn new() -> (res: HealthService) {
        HealthService {  }
    }

    /// The state of the service given whether the database and the ledger
    /// answered.
    pub fn detailed_health(&self, db_health: bool, tb_health: bool) -> (res: HealthStatus)
        ensures
            res.status@ == overall_status_text(db_health, tb_health),
            res.database@ == connection_text(db_health),
            res.tigerbeetle@ == connection_text(tb_health),
            res.timestamp.nanos < 1_000_000_000,
    {
        proof {
            reveal_strlit("healthy");
            reveal_strlit("critical");
            reveal_strlit("degraded");
            reveal_strlit("connected");
            reveal_strlit("disconnected");
        }
        let overall = if db_health && tb_health {
            "healthy"
        } else if !db_health && !tb_health {
            "critical"
        } else {
            "degraded"
        };
        HealthStatus {
            status: overall.to_string(),
            database: (if db_health { "connected" } else { "disconnected" }).to_string(),
            tigerbeetle: (if tb_health { "connected" } else { "disconnected" }).to_string(),
            timestamp: now(),
        }
    }

    /// The state of the ledger alone given whether it answered
    ///; the database is not looked at.
    pub fn tigerbeetle_health(&self, tb_health: bool) -> (res: HealthStatus)
        ensures
            res.status@ == (if tb_health { "healthy"@ } else { "unhealthy"@ }),
            res.database@ == "unknown"@,
            res.tigerbeetle@ == connection_text(tb_health),
            res.timestamp.nanos < 1_000_000_000,
    {
        proof {
            reveal_strlit("healthy");
            reveal_strlit("unhealthy");
            reveal_strlit("unknown");
            reveal_strlit("connected");
            reveal_strlit("disconnected");
        }
        HealthStatus {
            status: (if tb_health { "healthy" } else { "unhealthy" }).to_string(),
            database: "unknown".to_string(),
            tigerbeetle: (if tb_health { "connected" } else { "disconnected" }).to_string(),
            timestamp: now(),
        }
    }
}

} // verus!
