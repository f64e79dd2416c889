//! The boundary to `serde_json`.
//!
//! JSON values travel through the library unopened: tool arguments, tool
//! results and parameter schemas are `serde_json::Value`s that the library
//! stores, hands on and asks `serde_json` to print or parse. Nothing in the
//! library looks inside one. The functions of `serde_json` that are called
//! are deterministic, so what they return is given a name here and the
//! contracts of the library speak of those names.

use vstd::prelude::*;

verus! {

/// `serde_json::Value`, opaque to the verifier.
#[verifier::external_type_specification]
#[verifier::external_body]
pub struct ExJsonValue(serde_json::Value);

/// `serde_json::Error`, opaque to the verifier.
#[verifier::external_type_specification]
#[verifier::external_body]
pub struct ExJsonError(serde_json::Error);

/// What `serde_json::to_string_pretty` returns for `value`: the indented
/// JSON text, or the error it reports.
pub uninterp spec fn pretty_text(value: serde_json::Value) -> Result<Seq<char>, serde_json::Error>;

/// What `serde_json::from_str` returns for `text` when asked for a
/// `serde_json::Value`: the parsed value, or the error it reports.
pub uninterp spec fn parsed(text: Seq<char>) -> Result<serde_json::Value, serde_json::Error>;

/// The message that a `serde_json::Error` displays.
pub uninterp spec fn error_text(error: serde_json::Error) -> Seq<char>;

/// Calls `serde_json::to_string_pretty` on a `Value`. Trusted: the outcome
/// depends on the value alone, which is all that naming it [`pretty_text`]
/// claims; nothing is promised about the text itself, nor that the call
/// succeeds.
#[verifier::external_body]
pub(crate) fn to_string_pretty(value: &serde_json::Value) -> (r: Result<String, serde_json::Error>)
    ensures
        match r {
            Ok(s) => pretty_text(*value) == Ok::<Seq<char>, serde_json::Error>(s@),
            Err(e) => pretty_text(*value) == Err::<Seq<char>, serde_json::Error>(e),
        },
{
    serde_json::to_string_pretty(value)
}

/// Calls `serde_json::from_str` for a `Value`. Trusted: the outcome depends
/// on the text alone, which is all that naming it [`parsed`] claims.
#[verifier::external_body]
pub(crate) fn from_str(text: &str) -> (r: Result<serde_json::Value, serde_json::Error>)
    ensures
        r == parsed(text@),
{
    serde_json::from_str::<serde_json::Value>(text)
}

/// Calls `to_string` on a `serde_json::Error`, which formats it with its
/// `Display` impl. Trusted: the message depends on the error alone, which is
/// all that naming it [`error_text`] claims.
#[verifier::external_body]
pub(crate) fn error_to_string(error: &serde_json::Error) -> (s: String)
    ensures
        s@ == error_text(*error),
{
    error.to_string()
}

} // verus!
