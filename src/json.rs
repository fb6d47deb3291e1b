use vstd::prelude::*;

verus! {

#[verifier::external_type_specification]
#[verifier::external_body]
pub struct ExValue(serde_json::Value);

#[verifier::external_type_specification]
#[verifier::external_body]
pub struct ExError(serde_json::Error);

/// The compact JSON text that serde_json writes for `v`.
pub uninterp spec fn json_text_of(v: serde_json::Value) -> Seq<char>;

/// The compact JSON text of the value that serde_json reads from `text`, or
/// `None` where it cannot read one.
pub uninterp spec fn reparsed_json(text: Seq<char>) -> Option<Seq<char>>;

/// Relies on serde_json's `Display` for `Value` (through `to_string`), which
/// writes the value as compact JSON text.
#[verifier::external_body]
pub(crate) fn compact_json(v: &serde_json::Value) -> (r: String)
    ensures
        r@ == json_text_of(*v),
{
    v.to_string()
}

/// Relies on `serde_json::from_str`: it reads a value from JSON text, and
/// fails with a syntax diagnostic where the text is not JSON.
#[verifier::external_body]
pub(crate) fn parse_json(text: &str) -> (r: Result<serde_json::Value, serde_json::Error>)
    ensures
        match r {
            Ok(v) => reparsed_json(text@) == Some(json_text_of(v)),
            Err(_) => reparsed_json(text@) is None,
        },
{
    serde_json::from_str(text)
}

/// Configuration text that is not JSON, with serde_json's diagnostic.
#[derive(Debug)]
pub struct ConfigParseError {
    pub error: serde_json::Error,
}

} // verus!
