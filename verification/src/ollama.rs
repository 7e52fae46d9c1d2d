//! The wire shapes of the inference service's generation route: the request
//! body and one line of the newline-delimited streamed response, together
//! with the trusted parser for such a line.

use vstd::prelude::*;

verus! {

/// Request body posted to the generation route: `{model, prompt, stream}`.
pub struct OllamaRequest {
    pub model: String,
    pub prompt: String,
    pub stream: bool,
}

/// One decoded line of the streamed response: an optional text fragment, the
/// completion flag, and an optional upstream error message.
pub struct OllamaStreamResponse {
    pub response: Option<String>,
    pub done: bool,
    pub error: Option<String>,
}

/// The three fields of one parsed line, as mathematical values.
pub open spec fn response_view(r: OllamaStreamResponse) -> (Option<Seq<char>>, bool, Option<
    Seq<char>,
>) {
    (
        match r.response {
            Some(s) => Some(s@),
            None => None,
        },
        r.done,
        match r.error {
            Some(s) => Some(s@),
            None => None,
        },
    )
}

/// What one parse attempt yields, as mathematical values.
pub open spec fn parse_view(r: Option<OllamaStreamResponse>) -> Option<
    (Option<Seq<char>>, bool, Option<Seq<char>>),
> {
    match r {
        Some(f) => Some(response_view(f)),
        None => None,
    }
}

/// What parsing one stream line yields: `None` where the line is not one JSON
/// object of the expected shape, otherwise its `response`, `done` and `error`
/// fields. A function of the characters of the line alone.
pub uninterp spec fn line_parse(s: Seq<char>) -> Option<
    (Option<Seq<char>>, bool, Option<Seq<char>>),
>;

/// Relies on `serde_json::from_str` and the accessors of `serde_json::Value`:
/// what a line of text parses to depends on its characters alone. A line is
/// accepted exactly when it is one JSON object whose `done` member is a
/// boolean and whose `response` and `error` members, where present and not
/// null, are strings; any other line is reported unparseable.
#[verifier::external_body]
pub fn parse_stream_line(line: &str) -> (r: Option<OllamaStreamResponse>)
    ensures
        parse_view(r) == line_parse(line@),
{
    let v: serde_json::Value = match serde_json::from_str(line) {
        Ok(v) => v,
        Err(_) => return None,
    };
    let done = match v.get("done") { Some(d) => d.as_bool()?, None => return None };
    let response = match v.get("response") {
        None | Some(serde_json::Value::Null) => None,
        Some(x) => match x.as_str() { Some(s) => Some(s.to_string()), None => return None },
    };
    let error = match v.get("error") {
        None | Some(serde_json::Value::Null) => None,
        Some(x) => match x.as_str() { Some(s) => Some(s.to_string()), None => return None },
    };
    Some(OllamaStreamResponse { response, done, error })
}

} // verus!
