//! Build-log lines: framing the event stream and classifying each line.
use vstd::prelude::*;

verus! {

#[derive(Debug, Clone)]
pub struct LogPayload {
    pub text: Option<String>,
    pub name: Option<String>,
    pub status_code: Option<i32>,
}

#[derive(Debug, Clone)]
pub struct LogEvent {
    pub event_type: String,
    pub created: i64,
    pub payload: Option<LogPayload>,
}

/// One line of a build log, as shown to the user.
#[derive(Debug, Clone)]
pub struct LogLine {
    pub timestamp: i64,
    pub text: String,
    pub is_error: bool,
}

/// The lower-case form of a text.
pub uninterp spec fn lower_of(s: Seq<char>) -> Seq<char>;

/// Relies on `str::to_lowercase`: the lower-case form of the text, which
/// depends on its characters alone.
#[verifier::external_body]
fn lowercase(s: &str) -> (r: String)
    ensures
        r@ == lower_of(s@),
{
    s.to_lowercase()
}

/// `pat` occurs in `s` at some position.
pub open spec fn has_substring(s: Seq<char>, pat: Seq<char>) -> bool {
    exists|i: int| 0 <= i && i + pat.len() <= s.len() && #[trigger] s.subrange(i, i + pat.len()) == pat
}

/// Relies on `str::contains` with a string pattern: whether `pat` occurs in `s`.
#[verifier::external_body]
fn contains_text(s: &str, pat: &str) -> (r: bool)
    ensures
        r == has_substring(s@, pat@),
{
    s.contains(pat)
}

/// A lower-cased log text reports an error: it mentions "error" or "failed".
pub open spec fn mentions_error(lowered: Seq<char>) -> bool {
    has_substring(lowered, "error"@) || has_substring(lowered, "failed"@)
}

/// Whether an already lower-cased log text reports an error.
pub fn lowered_mentions_error(lowered: &str) -> (r: bool)
    ensures
        r == mentions_error(lowered@),
{
    contains_text(lowered, "error") || contains_text(lowered, "failed")
}

/// The log line for an event's text, created at `created` (0 when absent);
/// it is an error line when its text, lower-cased, mentions an error.
pub fn log_line(text: String, created: Option<i64>) -> (r: LogLine)
    ensures
        r.text == text,
        r.timestamp == match created {
            Some(t) => t,
            None => 0,
        },
        r.is_error == mentions_error(lower_of(text@)),
{
    let lowered = lowercase(text.as_str());
    let is_error = lowered_mentions_error(lowered.as_str());
    LogLine {
        timestamp: match created {
            Some(t) => t,
            None => 0,
        },
        text,
        is_error,
    }
}

/// The data of a server-sent event line: what follows a leading "data: ".
pub open spec fn sse_payload(line: Seq<char>) -> Option<Seq<char>> {
    if line.len() >= 6 && line.take(6) == "data: "@ {
        Some(line.skip(6))
    } else {
        None
    }
}

/// The data of an event-stream line, if it is a data line.
pub fn sse_data(line: &str) -> (r: Option<String>)
    ensures
        match r {
            Some(d) => sse_payload(line@) == Some(d@),
            None => sse_payload(line@) is None,
        },
{
    proof {
        reveal_strlit("data: ");
    }
    let n = line.unicode_len();
    if n < 6 {
        return None;
    }
    let head = String::from_str(line.substring_char(0, 6));
    if head == String::from_str("data: ") {
        proof {
            assert(line@.subrange(0, 6) == line@.take(6));
            assert(line@.subrange(6, n as int) == line@.skip(6));
        }
        Some(String::from_str(line.substring_char(6, n)))
    } else {
        proof {
            assert(line@.subrange(0, 6) == line@.take(6));
        }
        None
    }
}

/// Splits off the first complete line of a stream buffer: the text before
/// the first line break, and what follows it. A buffer without a line
/// break holds no complete line yet.
pub fn next_line(buffer: &str) -> (r: Option<(String, String)>)
    ensures
        match r {
            Some((line, rest)) => exists|p: int| {
                &&& 0 <= p < buffer@.len()
                &&& buffer@[p] == '\n'
                &&& forall|j: int| 0 <= j < p ==> buffer@[j] != '\n'
                &&& line@ == buffer@.take(p)
                &&& rest@ == buffer@.skip(p + 1)
            },
            None => forall|j: int| 0 <= j < buffer@.len() ==> buffer@[j] != '\n',
        },
{
    let n = buffer.unicode_len();
    let mut i: usize = 0;
    while i < n
        invariant
            n == buffer@.len(),
            i <= n,
            forall|j: int| 0 <= j < i ==> buffer@[j] != '\n',
        decreases n - i,
    {
        if buffer.get_char(i) == '\n' {
            let line = String::from_str(buffer.substring_char(0, i));
            let rest = String::from_str(buffer.substring_char(i + 1, n));
            proof {
                assert(buffer@.subrange(0, i as int) == buffer@.take(i as int));
                assert(buffer@.subrange(i as int + 1, n as int) == buffer@.skip(i as int + 1));
            }
            return Some((line, rest));
        }
        i = i + 1;
    }
    None
}

} // verus!
