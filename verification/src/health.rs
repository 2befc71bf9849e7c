//! Liveness and readiness probes.

use vstd::prelude::*;

verus! {

/// The body of a probe answer.
pub struct HealthResponse {
    pub status: &'static str,
}

/// The liveness answer: the process is alive.
pub fn liveness() -> (r: HealthResponse)
    ensures
        r.status@ == "ok"@,
{
    HealthResponse { status: "ok" }
}

/// The readiness answer: ready when the database answered, otherwise the
/// status code 503.
pub fn readiness(database_reachable: bool) -> (r: Result<HealthResponse, u16>)
    ensures
        r is Ok <==> database_reachable,
        r is Ok ==> r.unwrap().status@ == "ready"@,
        r is Err ==> r->Err_0 == 503,
{
    if database_reachable {
        Ok(HealthResponse { status: "ready" })
    } else {
        Err(503)
    }
}

} // verus!
