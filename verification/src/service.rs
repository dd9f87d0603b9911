//! The settings of the API service that come from its environment.
use crate::numtext::{parse_bool, parse_bool_spec, parse_u64, parse_unsigned_spec};
use vstd::prelude::*;

verus! {

/// How requests to the API are rate limited.
#[derive(Clone, Copy, Debug, PartialEq, Eq, Structural)]
pub struct RateLimitConfig {
    pub enabled: bool,
    pub per_second: u64,
    pub burst_size: u32,
    pub cleanup_interval_secs: u64,
}

/// A setting read from an optional text with `read`, or `default` when the
/// text is missing or does not read.
pub open spec fn setting(text: Option<Seq<char>>, read: Option<int>, default: int) -> int {
    match text {
        Some(_) => match read {
            Some(v) => v,
            None => default,
        },
        None => default,
    }
}

/// The view of an optional text.
pub open spec fn opt_text(t: Option<&str>) -> Option<Seq<char>> {
    match t {
        Some(s) => Some(s@),
        None => None,
    }
}

/// The unsigned value an optional text reads as, for a type whose largest
/// value is `max`.
pub open spec fn read_unsigned(t: Option<&str>, max: int) -> Option<int> {
    match t {
        Some(s) => parse_unsigned_spec(s@, max),
        None => None,
    }
}

fn unsigned_or(text: Option<&str>, max: u64, default: u64) -> (r: u64)
    requires
        default <= max,
    ensures
        r == setting(opt_text(text), read_unsigned(text, max as int), default as int),
{
    match text {
        Some(t) => match parse_u64(t) {
            Some(v) => if v <= max {
                v
            } else {
                default
            },
            None => default,
        },
        None => default,
    }
}

/// The rate limiting of the API from the texts of its environment variables:
/// on unless `RATE_LIMIT_ENABLED` reads as `false`; 2 requests per second,
/// a burst of 5 and a cleanup every 60 seconds unless their variables read
/// as numbers of their types (`u64`, `u32`, `u64`).
pub fn rate_limit_config(
    enabled: Option<&str>,
    per_second: Option<&str>,
    burst_size: Option<&str>,
    cleanup_interval_secs: Option<&str>,
) -> (r: RateLimitConfig)
    ensures
        r.enabled == (match enabled {
            Some(t) => match parse_bool_spec(t@) {
                Some(b) => b,
                None => true,
            },
            None => true,
        }),
        r.per_second == setting(opt_text(per_second), read_unsigned(per_second, u64::MAX as int), 2),
        r.burst_size == setting(opt_text(burst_size), read_unsigned(burst_size, u32::MAX as int), 5),
        r.cleanup_interval_secs == setting(
            opt_text(cleanup_interval_secs),
            read_unsigned(cleanup_interval_secs, u64::MAX as int),
            60,
        ),
{
    let enabled = match enabled {
        Some(t) => match parse_bool(t) {
            Some(b) => b,
            None => true,
        },
        None => true,
    };
    let per_second = unsigned_or(per_second, u64::MAX, 2);
    let burst = unsigned_or(burst_size, u32::MAX as u64, 5);
    let cleanup = unsigned_or(cleanup_interval_secs, u64::MAX, 60);
    RateLimitConfig {
        enabled,
        per_second,
        burst_size: burst as u32,
        cleanup_interval_secs: cleanup,
    }
}

} // verus!
