//! Dependency health: two liveness probes reduced to one verdict.

use crate::errors::response::{bare_reply, Body, Reply};
use crate::status::StatusCode;
use vstd::prelude::*;

verus! {

/// How a liveness probe of one dependency ended.
#[derive(Debug, Clone, Copy, PartialEq, Eq, Structural)]
pub enum Probe {
    Succeeded,
    Failed,
    TimedOut,
}

/// The service is live only if both probes succeeded.
pub open spec fn both_live(cache: Probe, database: Probe) -> bool {
    cache is Succeeded && database is Succeeded
}

/// The verdict on the two probes, one of the cache and one of the database:
/// no content when both succeeded, internal server error otherwise, and no
/// body either way.
pub fn health_check(cache: Probe, database: Probe) -> (reply: Reply)
    ensures
        reply@ == bare_reply(
            if both_live(cache, database) {
                204
            } else {
                500
            },
        ),
        reply@.status == 204 <==> both_live(cache, database),
{
    match (cache, database) {
        (Probe::Succeeded, Probe::Succeeded) => Reply {
            status: StatusCode::no_content(),
            body: Body::Empty,
        },
        _ => Reply { status: StatusCode::internal_server_error(), body: Body::Empty },
    }
}

} // verus!
