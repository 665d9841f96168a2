//! What came back from one HTTP exchange with the reverie daemon, and the
//! bookkeeping that keeps repeated failures from flooding the log.

use vstd::prelude::*;

verus! {

/// Whether an HTTP status code means success (`200..=299`).
pub open spec fn spec_is_success(status: u16) -> bool {
    200 <= status && status <= 299
}

pub fn is_success(status: u16) -> (r: bool)
    ensures
        r == spec_is_success(status),
{
    200 <= status && status <= 299
}

/// The result of one request, as the transport reports it.
#[derive(Debug)]
pub enum FetchOutcome<T> {
    /// No response arrived (connection refused, DNS failure, ...).
    Transport,
    /// A response arrived with a status outside `200..=299`.
    Status(u16),
    /// A successful response whose body could not be read.
    Unreadable,
    /// A successful response whose body could not be decoded.
    Malformed,
    /// A successful response whose body decoded to this value.
    Parsed(T),
}

/// How loudly a failure is reported.
#[derive(Debug, Copy, Clone, PartialEq, Eq, Structural)]
pub enum LogLevel {
    Info,
    Debug,
}

/// Remembers whether a failure has already been reported at info level.
#[derive(Debug)]
pub struct FailureLog {
    logged: bool,
}

impl View for FailureLog {
    type V = bool;

    /// Whether the first failure has been reported since the last success.
    closed spec fn view(&self) -> bool {
        self.logged
    }
}

impl FailureLog {
    pub fn new() -> (r: Self)
        ensures
            !r@,
    {
        FailureLog { logged: false }
    }

    /// Records a failure: the first one since creation or since the last
    /// [`FailureLog::reset`] is reported at info level, later ones at debug.
    pub fn note_failure(&mut self) -> (r: LogLevel)
        ensures
            final(self)@,
            r == (if old(self)@ {
                LogLevel::Debug
            } else {
                LogLevel::Info
            }),
    {
        if self.logged {
            LogLevel::Debug
        } else {
            self.logged = true;
            LogLevel::Info
        }
    }

    /// Forgets earlier failures, so that the next one is reported at info.
    pub fn reset(&mut self)
        ensures
            !final(self)@,
    {
        self.logged = false;
    }
}

} // verus!
