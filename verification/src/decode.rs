//! The streaming-response decoder: folds a sequence of newline-delimited
//! JSON lines into the single final result string of one task.

use vstd::prelude::*;
use vstd::string::StrSliceExecFns;
use vstd::string::StringExecFns;
use crate::ollama::{line_parse, parse_stream_line, OllamaStreamResponse};
use crate::text::{spec_trim, trim_str, lemma_trim_idempotent};

verus! {

/// The final result of decoding, starting from accumulated text `acc` at
/// line `i`: a `response` fragment is appended to the accumulation, an
/// `error` field discards the accumulation and short-circuits with
/// `"Error: " + message`, `done` terminates normally, an unparseable line is
/// skipped, and a stream that ends without `done` terminates normally too.
/// Every non-error result is trimmed of leading and trailing whitespace.
pub open spec fn decode_from(lines: Seq<Seq<char>>, i: int, acc: Seq<char>) -> Seq<char>
    decreases lines.len() - i,
{
    if i >= lines.len() {
        spec_trim(acc)
    } else {
        match line_parse(lines[i]) {
            None => decode_from(lines, i + 1, acc),
            Some(f) => {
                let acc2 = match f.0 {
                    Some(t) => acc + t,
                    None => acc,
                };
                match f.2 {
                    Some(e) => "Error: "@ + e,
                    None => if f.1 {
                        spec_trim(acc2)
                    } else {
                        decode_from(lines, i + 1, acc2)
                    },
                }
            },
        }
    }
}

/// The final result of decoding a whole line sequence.
pub open spec fn decode_lines_spec(lines: Seq<Seq<char>>) -> Seq<char> {
    decode_from(lines, 0, Seq::empty())
}

/// Decode one streamed response into the task's single final string.
pub fn decode_stream(lines: &Vec<String>) -> (r: String)
    ensures
        r@ == decode_lines_spec(lines@.map_values(|l: String| l@)),
{
    let ghost gl = lines@.map_values(|l: String| l@);
    let mut acc = String::new();
    let mut i: usize = 0;
    while i < lines.len()
        invariant
            i <= lines.len(),
            gl == lines@.map_values(|l: String| l@),
            gl.len() == lines@.len(),
            decode_lines_spec(gl) == decode_from(gl, i as int, acc@),
        decreases lines.len() - i,
    {
        proof {
            assert(gl[i as int] == lines@[i as int]@);
        }
        match parse_stream_line(lines[i].as_str()) {
            None => {},
            Some(f) => {
                let OllamaStreamResponse { response, done, error } = f;
                match response {
                    Some(t) => acc.append(t.as_str()),
                    None => {},
                }
                match error {
                    Some(e) => {
                        let mut r = String::from_str("Error: ");
                        r.append(e.as_str());
                        return r;
                    },
                    None => {},
                }
                if done {
                    return trim_str(acc.as_str());
                }
            },
        }
        i += 1;
    }
    trim_str(acc.as_str())
}

/// Decoding is a pure function of the line sequence: the same well-formed
/// lines yield the same final string, however often they are fed in.
pub proof fn lemma_decode_deterministic(a: Seq<Seq<char>>, b: Seq<Seq<char>>)
    requires
        a == b,
    ensures
        decode_lines_spec(a) == decode_lines_spec(b),
{
}

/// The line neither reports an error nor completes the stream: decoding
/// reads past it.
pub open spec fn line_continues(l: Seq<char>) -> bool {
    match line_parse(l) {
        None => true,
        Some(f) => f.2 is None && !f.1,
    }
}

proof fn lemma_error_from(lines: Seq<Seq<char>>, k: int, i: int, e: Seq<char>, acc: Seq<char>)
    requires
        0 <= k <= i < lines.len(),
        line_parse(lines[i]) matches Some(f) && f.2 == Some(e),
        forall|j: int| k <= j < i ==> line_continues(#[trigger] lines[j]),
    ensures
        decode_from(lines, k, acc) == "Error: "@ + e,
    decreases i - k,
{
    if k < i {
        match line_parse(lines[k]) {
            None => {
                lemma_error_from(lines, k + 1, i, e, acc);
            },
            Some(f) => {
                let acc2 = match f.0 {
                    Some(t) => acc + t,
                    None => acc,
                };
                lemma_error_from(lines, k + 1, i, e, acc2);
            },
        }
    }
}

/// Short-circuit law: where line `i` is the first line that either reports
/// an error or completes the stream, and it carries the error message `e`,
/// the final result is exactly `"Error: " + e` — whatever text fragments
/// were accumulated before it and whatever lines follow it.
pub proof fn lemma_error_short_circuit(lines: Seq<Seq<char>>, i: int, e: Seq<char>)
    requires
        0 <= i < lines.len(),
        line_parse(lines[i]) matches Some(f) && f.2 == Some(e),
        forall|j: int| 0 <= j < i ==> line_continues(#[trigger] lines[j]),
    ensures
        decode_lines_spec(lines) == "Error: "@ + e,
{
    lemma_error_from(lines, 0, i, e, Seq::empty());
}

/// The decoded result is an error string or carries no leading or trailing
/// whitespace.
pub open spec fn error_form(r: Seq<char>) -> bool {
    exists|e: Seq<char>| r == "Error: "@ + e
}

proof fn lemma_decode_from_trimmed(lines: Seq<Seq<char>>, i: int, acc: Seq<char>)
    ensures
        error_form(decode_from(lines, i, acc)) || decode_from(lines, i, acc) == spec_trim(
            decode_from(lines, i, acc),
        ),
    decreases lines.len() - i,
{
    if i >= lines.len() {
        lemma_trim_idempotent(acc);
    } else {
        match line_parse(lines[i]) {
            None => {
                lemma_decode_from_trimmed(lines, i + 1, acc);
            },
            Some(f) => {
                let acc2 = match f.0 {
                    Some(t) => acc + t,
                    None => acc,
                };
                match f.2 {
                    Some(e) => {
                        assert(decode_from(lines, i, acc) == "Error: "@ + e);
                    },
                    None => {
                        if f.1 {
                            lemma_trim_idempotent(acc2);
                        } else {
                            lemma_decode_from_trimmed(lines, i + 1, acc2);
                        }
                    },
                }
            },
        }
    }
}

/// Trim law for the decoder: every final result that is not an error string
/// is already trimmed — re-trimming it changes nothing, so it has no leading
/// or trailing whitespace.
pub proof fn lemma_decode_result_trimmed(lines: Seq<Seq<char>>)
    ensures
        error_form(decode_lines_spec(lines)) || decode_lines_spec(lines) == spec_trim(
            decode_lines_spec(lines),
        ),
{
    lemma_decode_from_trimmed(lines, 0, Seq::empty());
}

} // verus!
