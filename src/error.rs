use vstd::prelude::*;

verus! {

/// Errors of the cache. A lookup only ever fails with `CacheMiss`; the other
/// kinds describe why one tier gave nothing.
#[derive(Debug)]
pub enum HyperCacheError {
    Redis(String),
    S3(String),
    Json(serde_json::Error),
    Compression(String),
    CacheMiss,
    Timeout(String),
}

} // verus!
