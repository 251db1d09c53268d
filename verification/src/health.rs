use vstd::prelude::*;
use crate::errors::{DetailsView, answer, ApiError, ErrorKind};

verus! {

/// The answer to a health check whose database round trip succeeded.
#[derive(Clone, Debug)]
pub struct HealthResponse {
    pub status: String,
    pub database: String,
    pub runtime_identity: String,
}

/// The health answer of a runtime whose database answered.
pub fn healthy(runtime_identity: String) -> (h: HealthResponse)
    ensures
        h.status@ == "ok"@,
        h.database@ == "connected"@,
        h.runtime_identity@ == runtime_identity@,
{
    HealthResponse {
        status: String::from_str("ok"),
        database: String::from_str("connected"),
        runtime_identity,
    }
}

/// The answer of a health check whose database round trip failed: the runtime
/// is unavailable, and the failure's text says why.
pub fn unhealthy(failure_text: String) -> (a: ApiError)
    ensures
        a@ == answer(ErrorKind::Unavailable, failure_text@, DetailsView::Empty),
{
    ApiError::unavailable(failure_text)
}

} // verus!

verus! {

/// The identity that a runtime reports when none is configured: the package
/// name and its version.
pub fn default_runtime_identity(version: &str) -> (identity: String)
    ensures
        identity@ == "robdex-agent-runtime/"@ + version@,
{
    String::from_str("robdex-agent-runtime/").concat(version)
}

} // verus!
