//! The two JSON text operations the protocol needs, done by serde_json.
use vstd::prelude::*;

verus! {

/// What serde_json reads from a text that should hold a single JSON string:
/// that string's contents, or nothing when the text is anything else.
pub uninterp spec fn json_string_of(text: Seq<char>) -> Option<Seq<char>>;

/// The JSON string literal (quotes and escapes included) that serde_json writes for `s`.
pub uninterp spec fn json_quoted(s: Seq<char>) -> Seq<char>;

/// Relies on `serde_json::from_str::<String>`: decodes a text holding exactly one
/// JSON string, and fails on any other text.
#[verifier::external_body]
pub(crate) fn decode_json_string(text: &str) -> (r: Option<String>)
    ensures
        r matches Some(s) ==> json_string_of(text@) == Some(s@),
        r is None ==> json_string_of(text@) is None,
{
    serde_json::from_str::<String>(text).ok()
}

/// Relies on `serde_json::to_string` on a `str`: writes it as a quoted, escaped JSON
/// string into a `Vec`, which cannot fail (serde_json's writer into a `Vec` never
/// errs and `str` serialises unconditionally).
#[verifier::external_body]
pub(crate) fn quote_json(s: &str) -> (r: String)
    ensures
        r@ == json_quoted(s@),
{
    serde_json::to_string(s).unwrap_or_default()
}

} // verus!
