use vstd::prelude::*;

verus! {

/// The state of the service, as the health check reports it.
pub struct HealthResponse {
    pub status: &'static str,
}

/// The description of the HTTP interface.
pub struct ApiDoc;

/// The answer of the health check: `200` with status `ok` when the database
/// answered its ping, else `503` with status `db_down`.
pub fn health_response(db_ok: bool) -> (r: (u16, HealthResponse))
    ensures
        db_ok ==> r.0 == 200 && r.1.status == "ok",
        !db_ok ==> r.0 == 503 && r.1.status == "db_down",
{
    if db_ok {
        (200, HealthResponse { status: "ok" })
    } else {
        (503, HealthResponse { status: "db_down" })
    }
}

} // verus!
