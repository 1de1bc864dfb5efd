//! `GET /health_check`: the liveness probe.

use crate::response::HttpOutcome;
use vstd::prelude::*;

verus! {

/// Answers the liveness probe. It takes nothing and consults nothing, so the
/// answer cannot depend on the store or on any other request: always 200, with
/// an empty body.
pub fn health_check() -> (outcome: HttpOutcome)
    ensures
        outcome == HttpOutcome::Success,
        outcome.status_code() == 200,
        outcome.payload().len() == 0,
{
    HttpOutcome::Success
}

} // verus!
