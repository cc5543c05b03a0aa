//! The fixed shapes of what the pipeline hands the outside world: the
//! bearer-authentication header value, the region-scoped synthesis endpoint,
//! and the argument lists of the external capture and playback processes.

use vstd::prelude::*;
use crate::history::views_of;

verus! {

/// The bearer header value for a provider key.
pub open spec fn bearer_spec(key: Seq<char>) -> Seq<char> {
    "Bearer "@ + key
}

/// Builds the `Authorization` header value for a provider key.
pub fn bearer_header(key: &str) -> (r: String)
    ensures
        r@ == bearer_spec(key@),
{
    let mut r = String::from_str("Bearer ");
    r.append(key);
    r
}

/// The region-scoped speech-synthesis endpoint.
pub open spec fn synthesis_url_spec(region: Seq<char>) -> Seq<char> {
    "https://"@ + region + ".tts.speech.microsoft.com/cognitiveservices/v1"@
}

/// Builds the synthesis endpoint for a configured region.
pub fn synthesis_url(region: &str) -> (r: String)
    ensures
        r@ == synthesis_url_spec(region@),
{
    let mut r = String::from_str("https://");
    r.append(region);
    r.append(".tts.speech.microsoft.com/cognitiveservices/v1");
    proof {
        assert(r@ =~= synthesis_url_spec(region@));
    }
    r
}

/// The capture process's arguments: overwrite, quiet logging, the input
/// backend and device, and the output path.
pub open spec fn capture_args_spec(
    backend: Seq<char>,
    device: Seq<char>,
    output: Seq<char>,
) -> Seq<Seq<char>> {
    seq!["-y"@, "-loglevel"@, "error"@, "-f"@, backend, "-i"@, device, output]
}

/// Builds the capture process's argument list.
pub fn capture_args(backend: &str, device: &str, output: &str) -> (r: Vec<String>)
    ensures
        views_of(r@) == capture_args_spec(backend@, device@, output@),
{
    let mut r: Vec<String> = Vec::new();
    r.push(String::from_str("-y"));
    r.push(String::from_str("-loglevel"));
    r.push(String::from_str("error"));
    r.push(String::from_str("-f"));
    r.push(String::from_str(backend));
    r.push(String::from_str("-i"));
    r.push(String::from_str(device));
    r.push(String::from_str(output));
    proof {
        assert(views_of(r@) =~~= capture_args_spec(backend@, device@, output@));
    }
    r
}

/// The playback process's arguments: read from standard input, no terminal
/// interface.
pub open spec fn player_args_spec() -> Seq<Seq<char>> {
    seq!["-"@, "--no-terminal"@]
}

/// Builds the playback process's argument list.
pub fn player_args() -> (r: Vec<String>)
    ensures
        views_of(r@) == player_args_spec(),
{
    let mut r: Vec<String> = Vec::new();
    r.push(String::from_str("-"));
    r.push(String::from_str("--no-terminal"));
    proof {
        assert(views_of(r@) =~~= player_args_spec());
    }
    r
}

} // verus!
