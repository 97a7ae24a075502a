//! The user's secret key on its way to the engine.
//!
//! The host hands the key over as a bare string. The engine's key type is
//! deserialized from a JSON document, so the string is first written out as
//! a JSON string: quoted, with whatever needs it escaped.

use vstd::prelude::*;

verus! {

/// The JSON document that holds `text` as one string: what
/// `serde_json::to_string` writes for a string slice with these characters.
pub uninterp spec fn json_string_text(text: Seq<char>) -> Seq<char>;

/// Calls `serde_json::to_string` on a string slice and turns its `Result`
/// into an `Option`. Not proved, and taken from that function's source: a
/// document always comes back, and it depends on the characters of `text`
/// alone. The call writes a quote, the characters with those escaped that
/// need it, and a quote into a vector of bytes; it fails only where such a
/// write fails, and a write to a vector appends to it and does not fail.
#[verifier::external_body]
fn to_json_text(text: &str) -> (r: Option<String>)
    ensures
        r is Some,
        r->Some_0@ == json_string_text(text@),
{
    serde_json::to_string(text).ok()
}

/// The JSON document from which the engine's key type is deserialized: the
/// key as a JSON string. Every key has one, so the result is always `Some`;
/// it is an `Option` because the call that writes the document out returns
/// a `Result`.
pub fn user_key_document(key: &str) -> (document: Option<String>)
    ensures
        document is Some,
        document->Some_0@ == json_string_text(key@),
{
    to_json_text(key)
}

} // verus!
