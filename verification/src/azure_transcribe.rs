//! What is asked of the transcription service, and how its answer is read.
//!
//! Sending the request and decoding the body are left to the caller. This
//! module decides which settings make a request at all, builds its address,
//! and turns the parts of an answer into the text or the error of the session.

use crate::config::Config;
use crate::text::{chars_of, string_of, trim_end_char, trim_range, trimmed};
use vstd::prelude::*;
use vstd::string::StringExecFns;

verus! {

/// A request to the transcription service: where it goes, and the key that
/// is sent with it.
#[derive(Debug, Clone, PartialEq, Eq)]
pub struct TranscriptionRequest {
    pub url: String,
    pub api_key: String,
}

/// A [`TranscriptionRequest`] as plain text.
pub struct RequestView {
    pub url: Seq<char>,
    pub api_key: Seq<char>,
}

impl View for TranscriptionRequest {
    type V = RequestView;

    open spec fn view(&self) -> RequestView {
        RequestView { url: self.url@, api_key: self.api_key@ }
    }
}

/// The name under which the audio is sent.
pub const UPLOAD_FILE_NAME: &'static str = "recording.wav";

/// The media type under which the audio is sent.
pub const UPLOAD_MIME: &'static str = "audio/wav";

/// The hint that is sent along with the audio.
pub const PROMPT: &'static str =
    "Use Simplified Chinese for Chinese words; keep English words as-is; preserve punctuation and code.";

/// The endpoint as it is used: trimmed, and without the slashes at its end.
pub open spec fn endpoint_of(cfg: Config) -> Seq<char> {
    trim_end_char(trimmed(cfg.azure.endpoint@), '/')
}

/// The address of the transcription service for the given settings.
pub open spec fn url_of(cfg: Config) -> Seq<char> {
    endpoint_of(cfg) + "/openai/deployments/"@ + trimmed(cfg.azure.deployment@)
        + "/audio/transcriptions?api-version="@ + trimmed(cfg.azure.api_version@)
}

/// The request that the settings make, or the first of them that is missing:
/// the key, the endpoint, the deployment, the version, in this order.
pub open spec fn transcription_request_spec(cfg: Config) -> Result<RequestView, Seq<char>> {
    if trimmed(cfg.azure.api_key@).len() == 0 {
        Err("Azure apiKey is empty"@)
    } else if endpoint_of(cfg).len() == 0 {
        Err("Azure endpoint is empty"@)
    } else if trimmed(cfg.azure.deployment@).len() == 0 {
        Err("Azure deployment is empty"@)
    } else if trimmed(cfg.azure.api_version@).len() == 0 {
        Err("Azure apiVersion is empty"@)
    } else {
        Ok(RequestView { url: url_of(cfg), api_key: trimmed(cfg.azure.api_key@) })
    }
}

/// The view of a request or of the error in its place.
pub open spec fn request_view(r: Result<TranscriptionRequest, String>) -> Result<
    RequestView,
    Seq<char>,
> {
    match r {
        Ok(q) => Ok(q@),
        Err(e) => Err(e@),
    }
}

/// `s`, trimmed, as characters.
fn trimmed_chars(s: &str) -> (r: Vec<char>)
    ensures
        r@ == trimmed(s@),
{
    let v = chars_of(s);
    let (a, b) = trim_range(&v, 0, v.len());
    assert(v@.subrange(0, v.len() as int) == v@);
    let mut r: Vec<char> = Vec::new();
    crate::text::push_range(&mut r, &v, a, b);
    r
}

/// How many characters of `v` are left once the `c` at its end are cut.
fn len_without_trailing(v: &Vec<char>, c: char) -> (n: usize)
    ensures
        n <= v.len(),
        v@.take(n as int) == trim_end_char(v@, c),
{
    let mut n: usize = v.len();
    assert(v@.take(n as int) == v@);
    while n > 0 && v[n - 1] == c
        invariant
            n <= v.len(),
            trim_end_char(v@, c) == trim_end_char(v@.take(n as int), c),
        decreases n,
    {
        assert(v@.take(n as int).drop_last() == v@.take(n - 1));
        n = n - 1;
    }
    n
}

/// The request for the given settings; see [`transcription_request_spec`].
pub fn transcription_request(cfg: &Config) -> (r: Result<TranscriptionRequest, String>)
    ensures
        request_view(r) == transcription_request_spec(*cfg),
{
    let key = trimmed_chars(cfg.azure.api_key.as_str());
    if key.len() == 0 {
        return Err("Azure apiKey is empty".to_owned());
    }
    let endpoint = trimmed_chars(cfg.azure.endpoint.as_str());
    let n = len_without_trailing(&endpoint, '/');
    if n == 0 {
        return Err("Azure endpoint is empty".to_owned());
    }
    let deployment = trimmed_chars(cfg.azure.deployment.as_str());
    if deployment.len() == 0 {
        return Err("Azure deployment is empty".to_owned());
    }
    let version = trimmed_chars(cfg.azure.api_version.as_str());
    if version.len() == 0 {
        return Err("Azure apiVersion is empty".to_owned());
    }
    let mut url = string_of(&endpoint, 0, n);
    url.append("/openai/deployments/");
    url.append(string_of(&deployment, 0, deployment.len()).as_str());
    url.append("/audio/transcriptions?api-version=");
    url.append(string_of(&version, 0, version.len()).as_str());
    let api_key = string_of(&key, 0, key.len());
    proof {
        assert(deployment@.subrange(0, deployment.len() as int) == deployment@);
        assert(version@.subrange(0, version.len() as int) == version@);
        assert(key@.subrange(0, key.len() as int) == key@);
    }
    Ok(TranscriptionRequest { url, api_key })
}

/// The error of an answer that the service marks as failed.
pub open spec fn http_failure(status: Seq<char>, body: Seq<char>) -> Seq<char> {
    "transcription failed ("@ + status + "): "@ + body
}

/// The error of an answer whose body holds no transcript.
pub open spec fn parse_failure(reason: Seq<char>) -> Seq<char> {
    "failed to parse response json: "@ + reason
}

/// What an answer of the service comes to. An answer that is marked as
/// failed is an error that quotes its status line and its body, whatever the
/// body holds. Any other answer gives the text that was decoded from its
/// body, or the reason why none was.
pub open spec fn transcription_outcome_spec(
    success: bool,
    status: Seq<char>,
    body: Seq<char>,
    decoded: Result<Seq<char>, Seq<char>>,
) -> Result<Seq<char>, Seq<char>> {
    if !success {
        Err(http_failure(status, body))
    } else {
        match decoded {
            Ok(text) => Ok(text),
            Err(reason) => Err(parse_failure(reason)),
        }
    }
}

/// Reads an answer of the service; see [`transcription_outcome_spec`].
pub fn transcription_outcome(
    success: bool,
    status: &str,
    body: &str,
    decoded: Result<String, String>,
) -> (r: Result<String, String>)
    ensures
        crate::app_state::texts_of(r) == transcription_outcome_spec(
            success,
            status@,
            body@,
            crate::app_state::texts_of(decoded),
        ),
{
    if !success {
        let mut e = "transcription failed (".to_owned();
        e.append(status);
        e.append("): ");
        e.append(body);
        return Err(e);
    }
    match decoded {
        Ok(text) => Ok(text),
        Err(reason) => {
            let mut e = "failed to parse response json: ".to_owned();
            e.append(reason.as_str());
            Err(e)
        },
    }
}

} // verus!
