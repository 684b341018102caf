//! Process configuration as plain values.
//!
//! Reading the environment is the caller's business; this module only
//! shapes the options the core recognizes and carries their stock values.

use vstd::prelude::*;
use crate::fetch::RetryConfig;

verus! {

/// How often each named task runs, in seconds.
#[derive(Debug, Clone, Copy, PartialEq, Eq, Structural)]
pub struct FetchIntervals {
    pub osdr: u64,
    pub iss: u64,
    pub apod: u64,
    pub neo: u64,
    pub donki: u64,
    pub spacex: u64,
}

/// Outbound HTTP timeouts, in milliseconds.
#[derive(Debug, Clone, Copy, PartialEq, Eq, Structural)]
pub struct Timeouts {
    pub http_connect_ms: u64,
    pub http_read_ms: u64,
    pub http_total_ms: u64,
}

/// The declared rate limit. It is read from configuration and carried
/// here, but no component enforces it yet.
#[derive(Debug, Clone, Copy, PartialEq, Eq, Structural)]
pub struct RateLimitConfig {
    pub requests_per_minute: u32,
    pub burst_size: u32,
}

/// Everything the pipeline is configured with.
#[derive(Debug)]
pub struct Config {
    pub database_url: String,
    pub redis_url: String,
    pub nasa_url: String,
    pub nasa_key: String,
    pub where_iss_url: String,
    pub user_agent: String,
    pub fetch_intervals: FetchIntervals,
    pub timeouts: Timeouts,
    pub retry: RetryConfig,
    pub rate_limit: RateLimitConfig,
}

impl FetchIntervals {
    /// The stock schedule: catalogue sync every 10 minutes, position every
    /// 2 minutes, astronomy picture twice a day, near-Earth objects every
    /// 2 hours, solar events and next launch every hour.
    pub fn standard() -> (r: FetchIntervals)
        ensures
            r == (FetchIntervals {
                osdr: 600,
                iss: 120,
                apod: 43200,
                neo: 7200,
                donki: 3600,
                spacex: 3600,
            }),
    {
        FetchIntervals { osdr: 600, iss: 120, apod: 43200, neo: 7200, donki: 3600, spacex: 3600 }
    }
}

impl Timeouts {
    /// The stock timeouts: connect within 10 s, read within 30 s, whole
    /// request within 60 s.
    pub fn standard() -> (r: Timeouts)
        ensures
            r == (Timeouts { http_connect_ms: 10_000, http_read_ms: 30_000, http_total_ms: 60_000 }),
    {
        Timeouts { http_connect_ms: 10_000, http_read_ms: 30_000, http_total_ms: 60_000 }
    }
}

impl RateLimitConfig {
    /// The stock declaration: sixty requests a minute, bursts of ten.
    pub fn standard() -> (r: RateLimitConfig)
        ensures
            r == (RateLimitConfig { requests_per_minute: 60, burst_size: 10 }),
    {
        RateLimitConfig { requests_per_minute: 60, burst_size: 10 }
    }
}

} // verus!
