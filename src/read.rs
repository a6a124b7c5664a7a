use crate::config::{CacheSource, HyperCacheConfig};
use crate::error::HyperCacheError;
use crate::json::{
    json_of_text, parse_json, text_of_json, utf8_string, utf8_text, write_json,
};
use vstd::prelude::*;

verus! {

broadcast use vstd::string::to_string_from_display_ensures_for_str;

/// Name of the counter that every lookup increments once.
pub const HYPERCACHE_COUNTER_NAME: &'static str = "posthog_hypercache_get_from_cache";

/// The literal that the primary tier holds for a key known to have no data.
pub const HYPER_CACHE_EMPTY_VALUE: &'static str = "__missing__";

/// The absence marker as text.
pub open spec fn absence_marker() -> Seq<char> {
    "__missing__"@
}

/// A value read from the cache: a JSON tree, or the cached fact that the key
/// has no data (distinct from JSON `null`).
#[derive(Debug, Clone)]
pub enum CachedValue {
    Absent,
    Json(serde_json::Value),
}

/// The tag of the one metric increment that a lookup makes.
#[derive(Debug, Clone, Copy, PartialEq, Eq, Structural)]
pub enum LookupMetric {
    HitPrimary,
    HitSecondary,
    Missing,
}

/// Text of the `result` tag of a metric.
pub open spec fn metric_label(m: LookupMetric) -> Seq<char> {
    match m {
        LookupMetric::HitPrimary => "hit_primary"@,
        LookupMetric::HitSecondary => "hit_secondary"@,
        LookupMetric::Missing => "missing"@,
    }
}

impl LookupMetric {
    /// Text of the `result` tag.
    pub fn label(&self) -> (r: String)
        ensures
            r@ == metric_label(*self),
    {
        match self {
            LookupMetric::HitPrimary => "hit_primary".to_string(),
            LookupMetric::HitSecondary => "hit_secondary".to_string(),
            LookupMetric::Missing => "missing".to_string(),
        }
    }
}

/// Tags of a lookup's metric increment: `result`, `namespace` and `value`.
pub fn metric_tags(metric: LookupMetric, config: &HyperCacheConfig) -> (r: Vec<(String, String)>)
    ensures
        r@.len() == 3,
        r@[0].0@ == "result"@,
        r@[0].1@ == metric_label(metric),
        r@[1].0@ == "namespace"@,
        r@[1].1@ == config.namespace@,
        r@[2].0@ == "value"@,
        r@[2].1@ == config.value@,
{
    let mut tags: Vec<(String, String)> = Vec::new();
    tags.push(("result".to_string(), metric.label()));
    tags.push(("namespace".to_string(), config.namespace.clone()));
    tags.push(("value".to_string(), config.value.clone()));
    tags
}

/// A write into the primary tier that a secondary-tier hit asks for.
#[derive(Debug, Clone)]
pub struct WriteBack {
    pub key: String,
    pub value: serde_json::Value,
}

/// How a lookup ended: its result, its metric, and the write-back it asks for.
#[derive(Debug)]
pub struct ReadOutcome {
    pub result: Result<(CachedValue, CacheSource), HyperCacheError>,
    pub metric: LookupMetric,
    pub write_back: Option<WriteBack>,
}

/// Where a lookup stands.
#[derive(Debug, Clone, Copy, PartialEq, Eq, Structural)]
pub enum ReadPhase {
    /// Waiting for the primary tier's text.
    Primary,
    /// Waiting for the decompressed form of the primary tier's text.
    Decompression,
    /// Waiting for the secondary tier's bytes.
    Secondary,
    /// The lookup is over.
    Finished,
}

/// What the caller does next.
#[derive(Debug)]
pub enum ReadAction {
    /// Decompress this primary-tier text, within the primary timeout.
    Decompress(String),
    /// Fetch this key from the secondary tier, within the secondary timeout.
    FetchSecondary(String),
    /// Report the outcome: emit its metric, start its write-back, return its result.
    Finish(ReadOutcome),
}

/// One lookup of one key, from the first tier to the outcome.
#[derive(Debug)]
pub struct TieredRead {
    pub key: String,
    pub phase: ReadPhase,
}

/// The outcome of a hit.
pub open spec fn hit(value: CachedValue, source: CacheSource, write_back: Option<WriteBack>) -> ReadAction {
    ReadAction::Finish(
        ReadOutcome {
            result: Ok((value, source)),
            metric: if source == CacheSource::Redis {
                LookupMetric::HitPrimary
            } else {
                LookupMetric::HitSecondary
            },
            write_back,
        },
    )
}

/// The outcome when no tier gave a value.
pub open spec fn miss() -> ReadAction {
    ReadAction::Finish(
        ReadOutcome {
            result: Err(HyperCacheError::CacheMiss),
            metric: LookupMetric::Missing,
            write_back: None,
        },
    )
}

/// What primary-tier text decodes to without decompression: the marker, or
/// the JSON it holds.
pub open spec fn direct_decode(raw: Seq<char>) -> Option<CachedValue> {
    if raw == absence_marker() {
        Some(CachedValue::Absent)
    } else {
        match json_of_text(raw) {
            Some(v) => Some(CachedValue::Json(v)),
            None => None,
        }
    }
}

/// What the body of a secondary-tier object decodes to: UTF-8 text that is JSON.
pub open spec fn body_decode(body: Seq<u8>) -> Option<serde_json::Value> {
    match utf8_text(body) {
        Some(t) => json_of_text(t),
        None => None,
    }
}

/// Step on the primary tier's text.
pub open spec fn primary_text_step(key: String, raw: String) -> (ReadPhase, ReadAction) {
    match direct_decode(raw@) {
        Some(v) => (ReadPhase::Finished, hit(v, CacheSource::Redis, None)),
        None => (ReadPhase::Decompression, ReadAction::Decompress(raw)),
    }
}

/// Step on the decompressed primary-tier text (`None`: decompression failed).
pub open spec fn decompressed_step(key: String, text: Option<String>) -> (ReadPhase, ReadAction) {
    match text {
        Some(t) => match json_of_text(t@) {
            Some(v) => (ReadPhase::Finished, hit(CachedValue::Json(v), CacheSource::Redis, None)),
            None => (ReadPhase::Secondary, ReadAction::FetchSecondary(key)),
        },
        None => (ReadPhase::Secondary, ReadAction::FetchSecondary(key)),
    }
}

/// Step when the primary tier gave nothing: not found, an error, or the timeout.
pub open spec fn primary_failed_step(key: String) -> (ReadPhase, ReadAction) {
    (ReadPhase::Secondary, ReadAction::FetchSecondary(key))
}

/// Step on the secondary tier's bytes.
pub open spec fn secondary_body_step(key: String, body: Seq<u8>) -> (ReadPhase, ReadAction) {
    match body_decode(body) {
        Some(v) => (
            ReadPhase::Finished,
            hit(CachedValue::Json(v), CacheSource::S3, Some(WriteBack { key, value: v })),
        ),
        None => (ReadPhase::Finished, miss()),
    }
}

/// Step when the secondary tier gave nothing: not found, an error, or the timeout.
pub open spec fn secondary_failed_step() -> (ReadPhase, ReadAction) {
    (ReadPhase::Finished, miss())
}

impl TieredRead {
    /// Starts a lookup of `key` at the primary tier.
    pub fn new(key: String) -> (r: Self)
        ensures
            r.key == key,
            r.phase == ReadPhase::Primary,
    {
        TieredRead { key, phase: ReadPhase::Primary }
    }

    /// The primary tier gave `raw` for the key.
    pub fn primary_text(&mut self, raw: String) -> (r: ReadAction)
        requires
            old(self).phase == ReadPhase::Primary,
        ensures
            final(self).key == old(self).key,
            (final(self).phase, r) == primary_text_step(old(self).key, raw),
    {
        match decode_direct(raw.as_str()) {
            Some(v) => {
                self.phase = ReadPhase::Finished;
                ReadAction::Finish(
                    ReadOutcome {
                        result: Ok((v, CacheSource::Redis)),
                        metric: LookupMetric::HitPrimary,
                        write_back: None,
                    },
                )
            },
            None => {
                self.phase = ReadPhase::Decompression;
                ReadAction::Decompress(raw)
            },
        }
    }

    /// Decompression of the primary tier's text gave `text` (`None`: it failed).
    pub fn decompressed(&mut self, text: Option<String>) -> (r: ReadAction)
        requires
            old(self).phase == ReadPhase::Decompression,
        ensures
            final(self).key == old(self).key,
            (final(self).phase, r) == decompressed_step(old(self).key, text),
    {
        if let Some(t) = text {
            if let Ok(v) = parse_json(t.as_str()) {
                self.phase = ReadPhase::Finished;
                return ReadAction::Finish(
                    ReadOutcome {
                        result: Ok((CachedValue::Json(v), CacheSource::Redis)),
                        metric: LookupMetric::HitPrimary,
                        write_back: None,
                    },
                );
            }
        }
        self.phase = ReadPhase::Secondary;
        ReadAction::FetchSecondary(self.key.clone())
    }

    /// The primary tier gave nothing: not found, an error, or the timeout,
    /// before or during decompression.
    pub fn primary_failed(&mut self) -> (r: ReadAction)
        requires
            old(self).phase == ReadPhase::Primary || old(self).phase == ReadPhase::Decompression,
        ensures
            final(self).key == old(self).key,
            (final(self).phase, r) == primary_failed_step(old(self).key),
    {
        self.phase = ReadPhase::Secondary;
        ReadAction::FetchSecondary(self.key.clone())
    }

    /// The secondary tier gave `body` for the key.
    pub fn secondary_body(&mut self, body: Vec<u8>) -> (r: ReadAction)
        requires
            old(self).phase == ReadPhase::Secondary,
        ensures
            final(self).key == old(self).key,
            (final(self).phase, r) == secondary_body_step(old(self).key, body@),
    {
        self.phase = ReadPhase::Finished;
        match decode_s3_body(body) {
            Ok(v) => {
                let write_back = WriteBack { key: self.key.clone(), value: v.clone() };
                ReadAction::Finish(
                    ReadOutcome {
                        result: Ok((CachedValue::Json(v), CacheSource::S3)),
                        metric: LookupMetric::HitSecondary,
                        write_back: Some(write_back),
                    },
                )
            },
            Err(_) => ReadAction::Finish(
                ReadOutcome {
                    result: Err(HyperCacheError::CacheMiss),
                    metric: LookupMetric::Missing,
                    write_back: None,
                },
            ),
        }
    }

    /// The secondary tier gave nothing: not found, an error, or the timeout.
    pub fn secondary_failed(&mut self) -> (r: ReadAction)
        requires
            old(self).phase == ReadPhase::Secondary,
        ensures
            final(self).key == old(self).key,
            (final(self).phase, r) == secondary_failed_step(),
    {
        self.phase = ReadPhase::Finished;
        ReadAction::Finish(
            ReadOutcome {
                result: Err(HyperCacheError::CacheMiss),
                metric: LookupMetric::Missing,
                write_back: None,
            },
        )
    }
}

/// Decodes primary-tier text without decompression.
pub fn decode_direct(raw: &str) -> (r: Option<CachedValue>)
    ensures
        r == direct_decode(raw@),
{
    let marker = HYPER_CACHE_EMPTY_VALUE.to_string();
    if raw.to_string() == marker {
        return Some(CachedValue::Absent);
    }
    match parse_json(raw) {
        Ok(v) => Some(CachedValue::Json(v)),
        Err(_) => None,
    }
}

/// Decodes the body of a secondary-tier object; the tier holds uncompressed JSON.
pub fn decode_s3_body(body: Vec<u8>) -> (r: Result<serde_json::Value, HyperCacheError>)
    ensures
        r is Ok <==> body_decode(body@) is Some,
        r matches Ok(v) ==> body_decode(body@) == Some(v),
        r matches Err(e) ==> (utf8_text(body@) is None ==> e is S3) && (utf8_text(body@) is Some
            ==> e is Json),
{
    let text = match utf8_string(body) {
        Some(t) => t,
        None => {
            return Err(HyperCacheError::S3("S3 object body is not valid UTF-8".to_string()));
        },
    };
    match parse_json(&text) {
        Ok(v) => Ok(v),
        Err(e) => Err(HyperCacheError::Json(e)),
    }
}

/// The text that a write-back stores in the primary tier: the value's JSON,
/// uncompressed.
pub fn write_back_text(write_back: &WriteBack) -> (r: Result<String, HyperCacheError>)
    ensures
        r is Ok <==> text_of_json(write_back.value) is Some,
        r matches Ok(t) ==> text_of_json(write_back.value) == Some(t@),
        r matches Err(e) ==> e is Json,
{
    match write_json(&write_back.value) {
        Ok(t) => Ok(t),
        Err(e) => Err(HyperCacheError::Json(e)),
    }
}

} // verus!
