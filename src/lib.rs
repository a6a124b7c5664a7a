//! Read path of a two-tier cache: a fast key/value primary tier in front of a
//! durable object-store secondary tier. The decisions of a lookup are a
//! verified state machine; the caller does the I/O that it asks for.

mod config;
mod error;
mod json;
mod laws;
mod read;

pub use config::{millis_duration, CacheSource, HyperCacheConfig};
pub use error::HyperCacheError;
pub use json::{json_of_text, text_of_json, utf8_text};
pub use laws::{
    asks_secondary, lemma_absence_marker_is_primary_hit, lemma_both_tiers_miss,
    lemma_decompressed_is_primary_hit, lemma_lookup_is_idempotent,
    lemma_primary_json_is_primary_hit, lemma_secondary_hit_writes_back, lookup,
};
pub use read::{
    absence_marker, body_decode, decode_direct, decode_s3_body, decompressed_step,
    direct_decode, hit, metric_label, metric_tags, miss,
    primary_failed_step, primary_text_step, secondary_body_step,
    secondary_failed_step, write_back_text, CachedValue, LookupMetric, ReadAction,
    ReadOutcome, ReadPhase, TieredRead, WriteBack, HYPERCACHE_COUNTER_NAME,
    HYPER_CACHE_EMPTY_VALUE,
};
