//! Extraction of the one string each API response carries. The response
//! bodies are JSON documents read by serde_json; what each extraction yields
//! is a function of the body text alone, so it is given a name that the
//! contracts downstream speak of exactly. A body that is not valid JSON, or
//! whose expected field is missing or mistyped, yields `None` and is treated
//! as fatal by the caller.

use vstd::prelude::*;

verus! {

/// What the transcription response body yields: its string field named
/// `text`, or nothing when the body is not a JSON object with such a string
/// field. It depends on the body text alone.
pub uninterp spec fn transcript_of(s: Seq<char>) -> Option<Seq<char>>;

/// What the chat-completion response body yields: the string at
/// `choices[0].message.content`, or nothing when the body is not JSON or any
/// step of that path is missing or mistyped. It depends on the body text
/// alone.
pub uninterp spec fn reply_of(s: Seq<char>) -> Option<Seq<char>>;

/// Relies on `serde_json::from_str`, `Value::get` and `Value::as_str`: parses
/// the body and looks up the string field named `text`; the result depends on
/// the body alone, and none of these calls panics.
#[verifier::external_body]
fn transcript_field(body: &str) -> (r: Option<String>)
    ensures
        (match r {
            Some(s) => Some(s@),
            None => None,
        }) == transcript_of(body@),
{
    serde_json::from_str::<serde_json::Value>(body).ok().and_then(
        |v| v.get("text").and_then(|t| t.as_str()).map(str::to_owned),
    )
}

/// Relies on `serde_json::from_str`, `Value::get` and `Value::as_str`: parses
/// the body and walks `choices[0].message.content` to its string; the result
/// depends on the body alone, and none of these calls panics.
#[verifier::external_body]
fn reply_field(body: &str) -> (r: Option<String>)
    ensures
        (match r {
            Some(s) => Some(s@),
            None => None,
        }) == reply_of(body@),
{
    serde_json::from_str::<serde_json::Value>(body).ok().and_then(
        |v|
            v.get("choices")
                .and_then(|c| c.get(0))
                .and_then(|f| f.get("message"))
                .and_then(|m| m.get("content"))
                .and_then(|t| t.as_str())
                .map(str::to_owned),
    )
}

/// The transcript in a transcription response: the string field named `text`.
/// `None` exactly when the body is not JSON or the field is missing or
/// mistyped.
pub fn extract_transcript(body: &str) -> (r: Option<String>)
    ensures
        (match r {
            Some(s) => Some(s@),
            None => None,
        }) == transcript_of(body@),
{
    transcript_field(body)
}

/// The reply in a chat-completion response: the string at
/// `choices[0].message.content`. `None` exactly when the body is not JSON or
/// any step of that path is missing or mistyped.
pub fn extract_reply(body: &str) -> (r: Option<String>)
    ensures
        (match r {
            Some(s) => Some(s@),
            None => None,
        }) == reply_of(body@),
{
    reply_field(body)
}

} // verus!
