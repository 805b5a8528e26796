//! The health endpoints.

use vstd::prelude::*;

use crate::cluster::gossip::VERSION;
use crate::routes::STATUS_SERVICE_UNAVAILABLE;
use crate::types::ThreatLevel;

verus! {

/// What a running node says of itself.
pub const HEALTHY: &'static str = "ok";

/// What a node says of itself whose store answers.
pub const READY: &'static str = "ready";

/// What the health endpoint reports.
#[derive(Debug)]
pub struct HealthResponse {
    pub status: &'static str,
    pub version: &'static str,
}

/// What the readiness endpoint reports.
#[derive(Debug)]
pub struct ReadyResponse {
    pub status: &'static str,
    pub redis: bool,
}

/// What the metrics endpoint reports.
#[derive(Debug)]
pub struct MetricsResponse {
    pub node_id: String,
    pub threat_level: u8,
}

/// Basic health check: the node runs.
pub fn health_check() -> (r: HealthResponse)
    ensures
        r.status@ == HEALTHY@,
        r.version@ == VERSION@,
{
    HealthResponse { status: HEALTHY, version: VERSION }
}

/// Readiness check: a node is ready if the shared store answers its
/// ping; one whose store does not answer is unavailable.
pub fn ready_check(store_answers: bool) -> (r: Result<ReadyResponse, u16>)
    ensures
        match r {
            Ok(ready) => store_answers && ready.status@ == READY@ && ready.redis,
            Err(status) => !store_answers && status == STATUS_SERVICE_UNAVAILABLE,
        },
{
    if store_answers {
        Ok(ReadyResponse { status: READY, redis: true })
    } else {
        Err(STATUS_SERVICE_UNAVAILABLE)
    }
}

/// Metrics: the node's name and its threat level.
pub fn metrics(node_id: &str, level: ThreatLevel) -> (r: MetricsResponse)
    ensures
        r.node_id@ == node_id@,
        r.threat_level == level@,
{
    MetricsResponse { node_id: String::from_str(node_id), threat_level: level.value() }
}

} // verus!
