//! Domain errors of the pipeline and their stable classification.
//!
//! Every error kind maps to exactly one status classification (client-caused,
//! upstream-caused or server-caused) and one HTTP-style status code, so a
//! boundary layer can render any error without ambiguity.

use vstd::prelude::*;

verus! {

/// One error kind per failure surface of the pipeline. The payload strings
/// carry diagnostic messages from the failing subsystem.
#[derive(Debug)]
pub enum ApiError {
    /// A relational-store operation failed.
    Database(String),
    /// The outbound HTTP client failed (transport-level).
    HttpClient(String),
    /// The cache subsystem failed.
    Redis(String),
    /// A payload was malformed or incomplete.
    Validation(String),
    /// The requested datum does not exist.
    NotFound(String),
    /// Reserved: the configured rate limit was exceeded.
    RateLimitExceeded,
    /// An internal invariant failed; includes "lock already held".
    Internal(String),
    /// A transport failure attributed to a named upstream service.
    ExternalApi(String),
}

/// Who is responsible for an error: the caller, an upstream service,
/// or this process itself.
#[derive(Debug, Clone, Copy, PartialEq, Eq, Structural)]
pub enum ErrorClass {
    ClientCaused,
    UpstreamCaused,
    ServerCaused,
}

/// The status code each error kind is rendered with.
pub open spec fn spec_status_code(e: ApiError) -> u16 {
    match e {
        ApiError::Database(_) => 500,
        ApiError::HttpClient(_) => 502,
        ApiError::Redis(_) => 500,
        ApiError::Validation(_) => 400,
        ApiError::NotFound(_) => 404,
        ApiError::RateLimitExceeded => 429,
        ApiError::Internal(_) => 500,
        ApiError::ExternalApi(_) => 502,
    }
}

/// The classification each error kind belongs to.
pub open spec fn spec_classification(e: ApiError) -> ErrorClass {
    match e {
        ApiError::Database(_) => ErrorClass::ServerCaused,
        ApiError::HttpClient(_) => ErrorClass::UpstreamCaused,
        ApiError::Redis(_) => ErrorClass::ServerCaused,
        ApiError::Validation(_) => ErrorClass::ClientCaused,
        ApiError::NotFound(_) => ErrorClass::ClientCaused,
        ApiError::RateLimitExceeded => ErrorClass::ClientCaused,
        ApiError::Internal(_) => ErrorClass::ServerCaused,
        ApiError::ExternalApi(_) => ErrorClass::UpstreamCaused,
    }
}

impl ApiError {
    /// The HTTP-style status code this error is rendered with at the boundary.
    pub fn status_code(&self) -> (code: u16)
        ensures
            code == spec_status_code(*self),
    {
        match self {
            ApiError::Database(_) => 500,
            ApiError::HttpClient(_) => 502,
            ApiError::Redis(_) => 500,
            ApiError::Validation(_) => 400,
            ApiError::NotFound(_) => 404,
            ApiError::RateLimitExceeded => 429,
            ApiError::Internal(_) => 500,
            ApiError::ExternalApi(_) => 502,
        }
    }

    /// The stable status classification of this error.
    pub fn classification(&self) -> (class: ErrorClass)
        ensures
            class == spec_classification(*self),
    {
        match self {
            ApiError::Database(_) => ErrorClass::ServerCaused,
            ApiError::HttpClient(_) => ErrorClass::UpstreamCaused,
            ApiError::Redis(_) => ErrorClass::ServerCaused,
            ApiError::Validation(_) => ErrorClass::ClientCaused,
            ApiError::NotFound(_) => ErrorClass::ClientCaused,
            ApiError::RateLimitExceeded => ErrorClass::ClientCaused,
            ApiError::Internal(_) => ErrorClass::ServerCaused,
            ApiError::ExternalApi(_) => ErrorClass::UpstreamCaused,
        }
    }
}

/// The classification and the status code always agree: client-caused errors
/// carry a 4xx status, and every non-4xx status is attributed to exactly one
/// of the two non-client classes (502 upstream, 500 server).
pub proof fn lemma_classification_total(e: ApiError)
    ensures
        spec_classification(e) == ErrorClass::ClientCaused <==> 400 <= spec_status_code(e) < 500,
        spec_classification(e) == ErrorClass::UpstreamCaused <==> spec_status_code(e) == 502,
        spec_classification(e) == ErrorClass::ServerCaused <==> spec_status_code(e) == 500,
{
}

} // verus!
