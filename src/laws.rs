use crate::config::CacheSource;
use crate::json::json_of_text;
use crate::read::{
    absence_marker, body_decode, decompressed_step, direct_decode, hit, miss,
    primary_failed_step, primary_text_step, secondary_body_step, secondary_failed_step,
    CachedValue, ReadAction, ReadPhase, WriteBack,
};
use vstd::prelude::*;

verus! {

/// The action that ends a lookup of `key`, given what each tier gives when it
/// is asked: the primary tier's text (`None`: not found, an error or the
/// timeout), the decompressed form of that text (`None`: decompression failed
/// or the timeout), and the secondary tier's bytes (`None`: not found, an
/// error or the timeout). A tier that the lookup never reaches is not asked.
pub open spec fn lookup(
    key: String,
    primary: Option<String>,
    decompressed: Option<String>,
    secondary: Option<Seq<u8>>,
) -> ReadAction {
    let first = match primary {
        Some(raw) => primary_text_step(key, raw),
        None => primary_failed_step(key),
    };
    let second = if first.0 == ReadPhase::Decompression {
        decompressed_step(key, decompressed)
    } else {
        first
    };
    if second.0 == ReadPhase::Secondary {
        match secondary {
            Some(body) => secondary_body_step(key, body).1,
            None => secondary_failed_step().1,
        }
    } else {
        second.1
    }
}

/// Whether a lookup asks the secondary tier.
pub open spec fn asks_secondary(
    key: String,
    primary: Option<String>,
    decompressed: Option<String>,
) -> bool {
    let first = match primary {
        Some(raw) => primary_text_step(key, raw),
        None => primary_failed_step(key),
    };
    first.0 == ReadPhase::Secondary || (first.0 == ReadPhase::Decompression && decompressed_step(
        key,
        decompressed,
    ).0 == ReadPhase::Secondary)
}

/// Where the primary tier holds the absence marker, the lookup is a primary
/// hit with the absent value, never a miss, and the secondary tier is not asked.
pub proof fn lemma_absence_marker_is_primary_hit(
    key: String,
    raw: String,
    decompressed: Option<String>,
    secondary: Option<Seq<u8>>,
)
    requires
        raw@ == absence_marker(),
    ensures
        lookup(key, Some(raw), decompressed, secondary) == hit(
            CachedValue::Absent,
            CacheSource::Redis,
            None,
        ),
        lookup(key, Some(raw), decompressed, secondary) != miss(),
        !asks_secondary(key, Some(raw), decompressed),
{
}

/// Where the primary tier holds JSON text, the lookup is a primary hit with
/// the value that text holds, and the secondary tier is not asked.
pub proof fn lemma_primary_json_is_primary_hit(
    key: String,
    raw: String,
    decompressed: Option<String>,
    secondary: Option<Seq<u8>>,
    v: serde_json::Value,
)
    requires
        raw@ != absence_marker(),
        json_of_text(raw@) == Some(v),
    ensures
        lookup(key, Some(raw), decompressed, secondary) == hit(
            CachedValue::Json(v),
            CacheSource::Redis,
            None,
        ),
        !asks_secondary(key, Some(raw), decompressed),
{
}

/// Where the primary tier gives nothing and the secondary tier holds JSON, the
/// lookup is a secondary hit with that value, and asks for exactly one
/// write-back of that value under the same key.
pub proof fn lemma_secondary_hit_writes_back(
    key: String,
    decompressed: Option<String>,
    body: Seq<u8>,
    v: serde_json::Value,
)
    requires
        body_decode(body) == Some(v),
    ensures
        asks_secondary(key, None, decompressed),
        lookup(key, None, decompressed, Some(body)) == hit(
            CachedValue::Json(v),
            CacheSource::S3,
            Some(WriteBack { key, value: v }),
        ),
{
}

/// Where neither tier gives a usable value (nothing, or text that does not
/// decode), the lookup is a miss, with its one `missing` metric and no write-back.
pub proof fn lemma_both_tiers_miss(
    key: String,
    primary: Option<String>,
    decompressed: Option<String>,
    secondary: Option<Seq<u8>>,
)
    requires
        primary matches Some(raw) ==> direct_decode(raw@) is None && (decompressed matches Some(
            t,
        ) ==> json_of_text(t@) is None),
        secondary matches Some(body) ==> body_decode(body) is None,
    ensures
        lookup(key, primary, decompressed, secondary) == miss(),
{
}

/// Where the primary tier's text does not decode directly but its decompressed
/// form is JSON, the lookup is a primary hit with that value, and the
/// secondary tier is not asked.
pub proof fn lemma_decompressed_is_primary_hit(
    key: String,
    raw: String,
    text: String,
    secondary: Option<Seq<u8>>,
    v: serde_json::Value,
)
    requires
        direct_decode(raw@) is None,
        json_of_text(text@) == Some(v),
    ensures
        lookup(key, Some(raw), Some(text), secondary) == hit(
            CachedValue::Json(v),
            CacheSource::Redis,
            None,
        ),
        !asks_secondary(key, Some(raw), Some(text)),
{
}

/// Two lookups against the same tier contents end alike: each ends in an
/// outcome, with the same value and source (or the same miss) and the same
/// metric; where the key is the same, the write-back is the same too.
pub proof fn lemma_lookup_is_idempotent(
    key: String,
    again: String,
    primary: Option<String>,
    decompressed: Option<String>,
    secondary: Option<Seq<u8>>,
)
    ensures
        lookup(key, primary, decompressed, secondary) is Finish,
        lookup(again, primary, decompressed, secondary) is Finish,
        lookup(key, primary, decompressed, secondary)->Finish_0.result == lookup(
            again,
            primary,
            decompressed,
            secondary,
        )->Finish_0.result,
        lookup(key, primary, decompressed, secondary)->Finish_0.metric == lookup(
            again,
            primary,
            decompressed,
            secondary,
        )->Finish_0.metric,
        key == again ==> lookup(key, primary, decompressed, secondary) == lookup(
            again,
            primary,
            decompressed,
            secondary,
        ),
{
}

} // verus!
