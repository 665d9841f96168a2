//! The events endpoint of the reverie daemon, `GET /events/recent`: the
//! request URI, the event records, and how each reply is settled.

use vstd::prelude::*;

use crate::fetch::{FailureLog, FetchOutcome, LogLevel};
use crate::text::push_str;
use crate::url::{decimal, encode_query_value, push_decimal, query_encoding};

verus! {

/// A JSON document, carried through unexamined.
#[verifier::external_type_specification]
#[verifier::external_body]
pub struct ExJsonValue(serde_json::Value);

/// A copy of a JSON document.
///
/// Trusted: `serde_json::Value`'s derived `Clone`; nothing is stated about
/// the copy, which is carried through unexamined like the original.
pub assume_specification[<serde_json::Value as std::clone::Clone>::clone](v: &serde_json::Value) -> serde_json::Value;

/// The daemon's address when none is configured.
pub const DEFAULT_BASE_URL: &'static str = "http://localhost:7437";

/// One event as the daemon sends it.
#[derive(Debug, Clone)]
pub struct WireEvent {
    pub id: String,
    pub ts_ms: u64,
    pub category: String,
    pub type_: String,
    pub summary: String,
    pub fields: serde_json::Value,
}

/// A page of events and the cursor to continue from.
#[derive(Debug, Clone)]
pub struct RecentResponse {
    pub events: Vec<WireEvent>,
    pub next_after: Option<String>,
}

/// Why a poll of the events endpoint failed.
#[derive(Debug, Clone, PartialEq, Eq, Structural)]
pub enum ClientError {
    /// No usable response: unreachable daemon, unreadable or malformed body.
    Transport,
    /// The daemon answered with this non-success status.
    Status(u16),
}

/// The URI of a poll: base, limit, then the cursor when it is given and not
/// empty, then the categories when the list is not empty.
pub open spec fn recent_uri_spec(
    base: Seq<char>,
    after: Option<Seq<char>>,
    limit: nat,
    categories_csv: Seq<char>,
) -> Seq<char> {
    let head = base + "/events/recent?limit="@ + decimal(limit);
    let with_after = match after {
        Some(a) => if a.len() > 0 {
            head + "&after="@ + query_encoding(a, true)
        } else {
            head
        },
        None => head,
    };
    if categories_csv.len() > 0 {
        with_after + "&categories="@ + query_encoding(categories_csv, true)
    } else {
        with_after
    }
}

/// The parts of a poll URI are independent: the categories, when there are
/// any, come last as `&categories=` and their encoding, whatever the cursor
/// is; the cursor, when it is given and not empty, follows the limit as
/// `&after=` and its encoding; without either the URI is the endpoint and
/// the limit alone.
pub proof fn lemma_recent_uri_parts(
    base: Seq<char>,
    after: Option<Seq<char>>,
    limit: nat,
    categories_csv: Seq<char>,
)
    ensures
        categories_csv.len() > 0 ==> recent_uri_spec(base, after, limit, categories_csv)
            == recent_uri_spec(base, after, limit, Seq::empty()) + "&categories="@
            + query_encoding(categories_csv, true),
        categories_csv.len() == 0 ==> recent_uri_spec(base, after, limit, categories_csv)
            == recent_uri_spec(base, after, limit, Seq::empty()),
        recent_uri_spec(base, None, limit, Seq::empty()) == base + "/events/recent?limit="@
            + decimal(limit),
        recent_uri_spec(base, Some(Seq::empty()), limit, Seq::empty()) == recent_uri_spec(
            base,
            None,
            limit,
            Seq::empty(),
        ),
        after matches Some(a) && a.len() > 0 ==> recent_uri_spec(base, after, limit, Seq::empty())
            == recent_uri_spec(base, None, limit, Seq::empty()) + "&after="@ + query_encoding(
            after->0,
            true,
        ),
{
}

/// Client state for the events endpoint: where the daemon is and whether a
/// failure has been reported.
#[derive(Debug)]
pub struct DreamHttpClient {
    base_url: String,
    failures: FailureLog,
}

impl DreamHttpClient {
    pub closed spec fn base(&self) -> Seq<char> {
        self.base_url@
    }

    pub closed spec fn failure_logged(&self) -> bool {
        self.failures@
    }

    /// A client for `base_url`, or for [`DEFAULT_BASE_URL`] when none is given.
    pub fn new(base_url: Option<String>) -> (r: Self)
        ensures
            r.base() == (match base_url {
                Some(b) => b@,
                None => DEFAULT_BASE_URL@,
            }),
            !r.failure_logged(),
    {
        let base_url = match base_url {
            Some(b) => b,
            None => DEFAULT_BASE_URL.to_owned(),
        };
        DreamHttpClient { base_url, failures: FailureLog::new() }
    }

    /// The URI that asks for up to `limit` events after the cursor `after`,
    /// restricted to the comma-separated `categories_csv`.
    pub fn recent_uri(&self, after: Option<&str>, limit: usize, categories_csv: &str) -> (r:
        String)
        ensures
            r@ == recent_uri_spec(
                self.base(),
                match after {
                    Some(a) => Some(a@),
                    None => None,
                },
                limit as nat,
                categories_csv@,
            ),
    {
        let mut uri = self.base_url.clone();
        push_str(&mut uri, "/events/recent?limit=");
        push_decimal(&mut uri, limit as u64);
        if let Some(a) = after {
            if a.unicode_len() > 0 {
                push_str(&mut uri, "&after=");
                let enc = encode_query_value(a, true);
                push_str(&mut uri, enc.as_str());
            }
        }
        if categories_csv.unicode_len() > 0 {
            push_str(&mut uri, "&categories=");
            let enc = encode_query_value(categories_csv, true);
            push_str(&mut uri, enc.as_str());
        }
        uri
    }

    /// Settles one poll. A decoded body is the answer and clears the failure
    /// record; a non-success status is `Status`; everything else is
    /// `Transport`. Failures other than an undecodable body are reported,
    /// at the level returned.
    pub fn settle_recent(&mut self, outcome: FetchOutcome<RecentResponse>) -> (r: (
        Result<RecentResponse, ClientError>,
        Option<LogLevel>,
    ))
        ensures
            final(self).base() == old(self).base(),
            match outcome {
                FetchOutcome::Parsed(resp) => r.0 == Ok::<RecentResponse, ClientError>(resp)
                    && r.1 is None && !final(self).failure_logged(),
                FetchOutcome::Malformed => r.0 == Err::<RecentResponse, ClientError>(
                    ClientError::Transport,
                ) && r.1 is None && final(self).failure_logged() == old(
                    self,
                ).failure_logged(),
                FetchOutcome::Status(n) => r.0 == Err::<RecentResponse, ClientError>(
                    ClientError::Status(n),
                ) && r.1 == Some(
                    if old(self).failure_logged() {
                        LogLevel::Debug
                    } else {
                        LogLevel::Info
                    },
                ) && final(self).failure_logged(),
                _ => r.0 == Err::<RecentResponse, ClientError>(ClientError::Transport) && r.1
                    == Some(
                    if old(self).failure_logged() {
                        LogLevel::Debug
                    } else {
                        LogLevel::Info
                    },
                ) && final(self).failure_logged(),
            },
    {
        match outcome {
            FetchOutcome::Parsed(resp) => {
                self.failures.reset();
                (Ok(resp), None)
            },
            FetchOutcome::Malformed => (Err(ClientError::Transport), None),
            FetchOutcome::Status(n) => {
                let level = self.failures.note_failure();
                (Err(ClientError::Status(n)), Some(level))
            },
            FetchOutcome::Transport => {
                let level = self.failures.note_failure();
                (Err(ClientError::Transport), Some(level))
            },
            FetchOutcome::Unreadable => {
                let level = self.failures.note_failure();
                (Err(ClientError::Transport), Some(level))
            },
        }
    }
}

} // verus!
