use vstd::prelude::*;

verus! {

#[verifier::external_type_specification]
#[verifier::external_body]
pub struct ExJsonValue(serde_json::Value);

#[verifier::external_type_specification]
#[verifier::external_body]
pub struct ExJsonError(serde_json::Error);

/// The value that `serde_json::from_str` reads from a text, or `None` where it
/// refuses the text.
pub uninterp spec fn json_of_text(text: Seq<char>) -> Option<serde_json::Value>;

/// The text that `serde_json::to_string` writes for a value, or `None` where it
/// fails.
pub uninterp spec fn text_of_json(v: serde_json::Value) -> Option<Seq<char>>;

/// The text that `String::from_utf8` reads from bytes, or `None` where they are
/// not UTF-8.
pub uninterp spec fn utf8_text(bytes: Seq<u8>) -> Option<Seq<char>>;

/// Relies on `serde_json::from_str::<Value>`: whether it accepts a text, and the
/// value it reads, depend on the text alone.
#[verifier::external_body]
pub(crate) fn parse_json(text: &str) -> (r: Result<serde_json::Value, serde_json::Error>)
    ensures
        r is Ok <==> json_of_text(text@) is Some,
        r matches Ok(v) ==> json_of_text(text@) == Some(v),
{
    serde_json::from_str(text)
}

/// Relies on `serde_json::to_string`: whether it succeeds, and the text it
/// writes, depend on the value alone.
#[verifier::external_body]
pub(crate) fn write_json(v: &serde_json::Value) -> (r: Result<String, serde_json::Error>)
    ensures
        r is Ok <==> text_of_json(*v) is Some,
        r matches Ok(t) ==> text_of_json(*v) == Some(t@),
{
    serde_json::to_string(v)
}

/// Relies on `String::from_utf8`: whether it accepts the bytes, and the text it
/// gives, depend on the bytes alone.
#[verifier::external_body]
pub(crate) fn utf8_string(bytes: Vec<u8>) -> (r: Option<String>)
    ensures
        r is Some <==> utf8_text(bytes@) is Some,
        r matches Some(t) ==> utf8_text(bytes@) == Some(t@),
{
    String::from_utf8(bytes).ok()
}

/// Relies on `Value`'s `Clone`: the derived impl copies the whole tree.
pub assume_specification[ <serde_json::Value as Clone>::clone ](v: &serde_json::Value) -> (r: serde_json::Value)
    ensures
        r == *v,
;

} // verus!
