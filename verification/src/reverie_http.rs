//! The memory endpoints of the reverie daemon: `GET /context/smart` for
//! retrieval and `POST /observations[/passive]` for capture. A failing
//! daemon never fails the caller; it only degrades to "no memory".

use vstd::prelude::*;

use crate::dream_http::DEFAULT_BASE_URL;
use crate::fetch::{FailureLog, FetchOutcome, LogLevel};
use crate::text::{push_str, str_eq, trim, trim_bounds};
use crate::url::{encode_query_value, query_encoding};

verus! {

/// The lower-case hexadecimal digit for `n` (below 16).
pub open spec fn lower_hex(n: int) -> char {
    if n < 10 {
        (48 + n) as char
    } else {
        (87 + n) as char
    }
}

/// How `serde_json` writes one character inside a string: `"` and `\`
/// behind a backslash, the short escapes for backspace, tab, line feed,
/// form feed and carriage return, other control characters below U+0020 as
/// `\u00xx` (lower-case hex), and every other character as it is.
pub open spec fn json_char(c: char) -> Seq<char> {
    let v = c as u32;
    if v == 34 {
        seq!['\\', '"']
    } else if v == 92 {
        seq!['\\', '\\']
    } else if v == 8 {
        seq!['\\', 'b']
    } else if v == 9 {
        seq!['\\', 't']
    } else if v == 10 {
        seq!['\\', 'n']
    } else if v == 12 {
        seq!['\\', 'f']
    } else if v == 13 {
        seq!['\\', 'r']
    } else if v < 32 {
        seq!['\\', 'u', '0', '0', lower_hex(v as int / 16), lower_hex(v as int % 16)]
    } else {
        seq![c]
    }
}

/// The escaped contents of a JSON string for `s`, character by character.
pub open spec fn json_escape(s: Seq<char>) -> Seq<char>
    decreases s.len(),
{
    if s.len() == 0 {
        Seq::empty()
    } else {
        json_escape(s.drop_last()) + json_char(s.last())
    }
}

/// The JSON string literal that `serde_json` writes for the text `s`: the
/// escaped text between double quotes.
pub open spec fn json_string(s: Seq<char>) -> Seq<char> {
    seq!['"'] + json_escape(s) + seq!['"']
}

/// `s` as a JSON string literal.
///
/// Trusted: calls `serde_json::to_string` on a `str`, whose serialization
/// writes the escaped string into a byte buffer and cannot fail (it fails
/// only for values whose `Serialize` fails or maps with non-string keys).
/// The text is the quoted string with the escapes of `serde_json`'s escape
/// table and `write_char_escape`, as `json_string` states.
#[verifier::external_body]
fn to_json_string(s: &str) -> (r: Option<String>)
    ensures
        r is Some,
        r.unwrap()@ == json_string(s@),
{
    serde_json::to_string(s).ok()
}

fn push_json_string(out: &mut String, s: &str)
    ensures
        final(out)@ == old(out)@ + json_string(s@),
{
    match to_json_string(s) {
        Some(j) => push_str(out, j.as_str()),
        None => {},
    }
}

/// Memory the daemon returned for a query.
#[derive(Debug, Clone)]
pub struct SmartContext {
    pub content: String,
}

/// What the daemon answers when it has nothing for the project.
pub const NO_MEMORIES_SENTINEL: &'static str = "No previous session memories found.";

/// The URI of a smart-context query.
pub open spec fn smart_context_uri_spec(base: Seq<char>, query: Seq<char>, project: Seq<char>) -> Seq<
    char,
> {
    base + "/context/smart?q="@ + query_encoding(query, false) + "&project="@ + query_encoding(
        project,
        false,
    )
}

/// The memory to use from a decoded `context` field: none when it is blank
/// or the "nothing found" sentinel, else the text as sent.
pub open spec fn context_memory(context: Seq<char>) -> Option<Seq<char>> {
    if trim(context).len() == 0 || trim(context) == NO_MEMORIES_SENTINEL@ {
        None
    } else {
        Some(context)
    }
}

pub fn build_smart_context_uri(base_url: &str, query: &str, project: &str) -> (r: String)
    ensures
        r@ == smart_context_uri_spec(base_url@, query@, project@),
{
    let mut uri = base_url.to_owned();
    push_str(&mut uri, "/context/smart?q=");
    let q = encode_query_value(query, false);
    push_str(&mut uri, q.as_str());
    push_str(&mut uri, "&project=");
    let p = encode_query_value(project, false);
    push_str(&mut uri, p.as_str());
    uri
}

/// The memory carried by a decoded `context` field.
pub fn memory_from_context(context: String) -> (r: Option<SmartContext>)
    ensures
        match context_memory(context@) {
            Some(c) => r matches Some(m) && m.content@ == c,
            None => r is None,
        },
{
    let (a, b) = trim_bounds(context.as_str());
    if a == b {
        return None;
    }
    let trimmed = context.as_str().substring_char(a, b);
    if str_eq(trimmed, NO_MEMORIES_SENTINEL) {
        return None;
    }
    Some(SmartContext { content: context })
}

/// Client state for the memory endpoints: daemon address, project, and
/// whether a failure has been reported.
#[derive(Debug)]
pub struct ReverieHttpClient {
    base_url: String,
    project: String,
    failures: FailureLog,
}

impl ReverieHttpClient {
    pub closed spec fn base(&self) -> Seq<char> {
        self.base_url@
    }

    pub closed spec fn project_view(&self) -> Seq<char> {
        self.project@
    }

    pub closed spec fn failure_logged(&self) -> bool {
        self.failures@
    }

    /// A client for `base_url` (or [`DEFAULT_BASE_URL`]) that files memory
    /// under `project`.
    pub fn new(base_url: Option<String>, project: String) -> (r: Self)
        ensures
            r.base() == (match base_url {
                Some(b) => b@,
                None => DEFAULT_BASE_URL@,
            }),
            r.project_view() == project@,
            !r.failure_logged(),
    {
        let base_url = match base_url {
            Some(b) => b,
            None => DEFAULT_BASE_URL.to_owned(),
        };
        ReverieHttpClient { base_url, project, failures: FailureLog::new() }
    }

    pub fn project(&self) -> (r: &str)
        ensures
            r@ == self.project_view(),
    {
        self.project.as_str()
    }

    /// The URI that asks for memory relevant to `query` in this project.
    pub fn smart_context_uri(&self, query: &str) -> (r: String)
        ensures
            r@ == smart_context_uri_spec(self.base(), query@, self.project_view()),
    {
        build_smart_context_uri(self.base_url.as_str(), query, self.project.as_str())
    }

    /// The URI for passive captures, which the daemon runs through its
    /// extractor.
    pub fn passive_uri(&self) -> (r: String)
        ensures
            r@ == self.base() + "/observations/passive"@,
    {
        let mut uri = self.base_url.clone();
        push_str(&mut uri, "/observations/passive");
        uri
    }

    /// The URI for observations that are stored as given.
    pub fn observations_uri(&self) -> (r: String)
        ensures
            r@ == self.base() + "/observations"@,
    {
        let mut uri = self.base_url.clone();
        push_str(&mut uri, "/observations");
        uri
    }

    /// The JSON body of a passive capture.
    pub fn passive_body(&self, session_id: &str, content: &str, source: &str) -> (r: String)
        ensures
            r@ == "{\"session_id\":"@ + json_string(session_id@) + ",\"content\":"@ + json_string(
                content@,
            ) + ",\"project\":"@ + json_string(self.project_view()) + ",\"source\":"@
                + json_string(source@) + "}"@,
    {
        let mut body = "{\"session_id\":".to_owned();
        push_json_string(&mut body, session_id);
        push_str(&mut body, ",\"content\":");
        push_json_string(&mut body, content);
        push_str(&mut body, ",\"project\":");
        push_json_string(&mut body, self.project.as_str());
        push_str(&mut body, ",\"source\":");
        push_json_string(&mut body, source);
        push_str(&mut body, "}");
        body
    }

    /// The JSON body of an observation stored as given: a note with a
    /// title.
    pub fn observation_body(&self, session_id: &str, title: &str, content: &str, source: &str) -> (r:
        String)
        ensures
            r@ == "{\"session_id\":"@ + json_string(session_id@) + ",\"type\":\"note\",\"title\":"@
                + json_string(title@) + ",\"content\":"@ + json_string(content@) + ",\"project\":"@
                + json_string(self.project_view()) + ",\"source\":"@ + json_string(source@) + "}"@,
    {
        let mut body = "{\"session_id\":".to_owned();
        push_json_string(&mut body, session_id);
        push_str(&mut body, ",\"type\":\"note\",\"title\":");
        push_json_string(&mut body, title);
        push_str(&mut body, ",\"content\":");
        push_json_string(&mut body, content);
        push_str(&mut body, ",\"project\":");
        push_json_string(&mut body, self.project.as_str());
        push_str(&mut body, ",\"source\":");
        push_json_string(&mut body, source);
        push_str(&mut body, "}");
        body
    }

    /// Settles a smart-context query. Only a decoded `context` can carry
    /// memory; every failure is reported (at the level returned) and
    /// degrades to no memory.
    pub fn settle_smart_context(&mut self, outcome: FetchOutcome<String>) -> (r: (
        Option<SmartContext>,
        Option<LogLevel>,
    ))
        ensures
            final(self).base() == old(self).base(),
            final(self).project_view() == old(self).project_view(),
            match outcome {
                FetchOutcome::Parsed(context) => {
                    &&& match context_memory(context@) {
                        Some(c) => r.0 matches Some(m) && m.content@ == c,
                        None => r.0 is None,
                    }
                    &&& r.1 is None
                    &&& final(self).failure_logged() == old(self).failure_logged()
                },
                _ => {
                    &&& r.0 is None
                    &&& r.1 == Some(
                        if old(self).failure_logged() {
                            LogLevel::Debug
                        } else {
                            LogLevel::Info
                        },
                    )
                    &&& final(self).failure_logged()
                },
            },
    {
        match outcome {
            FetchOutcome::Parsed(context) => (memory_from_context(context), None),
            _ => {
                let level = self.failures.note_failure();
                (None, Some(level))
            },
        }
    }

    /// Settles a capture. A capture never fails its caller: a non-success
    /// status or a transport failure is only reported, at the level returned.
    pub fn settle_save(&mut self, outcome: FetchOutcome<()>) -> (r: Option<LogLevel>)
        ensures
            final(self).base() == old(self).base(),
            final(self).project_view() == old(self).project_view(),
            match outcome {
                FetchOutcome::Parsed(_) => r is None && final(self).failure_logged() == old(
                    self,
                ).failure_logged(),
                _ => r == Some(
                    if old(self).failure_logged() {
                        LogLevel::Debug
                    } else {
                        LogLevel::Info
                    },
                ) && final(self).failure_logged(),
            },
    {
        match outcome {
            FetchOutcome::Parsed(_) => None,
            _ => Some(self.failures.note_failure()),
        }
    }
}

} // verus!
