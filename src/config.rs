use std::time::Duration;
use vstd::prelude::*;

verus! {

broadcast use vstd::string::to_string_from_display_ensures_for_str;

/// The span that `Duration::from_millis` gives for a count of milliseconds.
pub uninterp spec fn millis_duration(ms: u64) -> Duration;

/// Relies on `Duration::from_millis`: the span depends on the count alone.
pub assume_specification[ core::time::Duration::from_millis ](millis: u64) -> (r: Duration)
    ensures
        r == millis_duration(millis),
;

/// Relies on `Duration`'s `Clone`: `Duration` is `Copy`, so a clone is the same span.
pub assume_specification[ <Duration as Clone>::clone ](d: &Duration) -> (r: Duration)
    ensures
        r == *d,
;

/// Cache tier that provided the data.
#[derive(Debug, Clone, Copy, PartialEq, Eq, Structural)]
pub enum CacheSource {
    Redis,
    S3,
}

/// Configuration of a reader; set once and never changed.
#[derive(Debug, Clone)]
pub struct HyperCacheConfig {
    /// Bucket of the secondary tier.
    pub s3_bucket: String,
    /// Region of the secondary tier.
    pub s3_region: String,
    /// Custom endpoint of the secondary tier (local object stores).
    pub s3_endpoint: Option<String>,
    /// Bound on the whole primary-tier attempt.
    pub redis_timeout: Duration,
    /// Bound on the whole secondary-tier attempt.
    pub s3_timeout: Duration,
    /// Metric label, e.g. "local_evaluation".
    pub namespace: String,
    /// Metric label, e.g. "flags".
    pub value: String,
}

impl Default for HyperCacheConfig {
    fn default() -> (r: Self)
        ensures
            r.s3_bucket@ == "posthog"@,
            r.s3_region@ == "us-east-1"@,
            r.s3_endpoint.is_none(),
            r.redis_timeout == millis_duration(500),
            r.s3_timeout == millis_duration(3000),
            r.namespace@ == "local_evaluation"@,
            r.value@ == "flags"@,
    {
        HyperCacheConfig {
            s3_bucket: "posthog".to_string(),
            s3_region: "us-east-1".to_string(),
            s3_endpoint: None,
            redis_timeout: Duration::from_millis(500),
            s3_timeout: Duration::from_millis(3000),
            namespace: "local_evaluation".to_string(),
            value: "flags".to_string(),
        }
    }
}

} // verus!
