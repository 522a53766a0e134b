//! The outcome of a single probe attempt and the finished record for one URL.

use vstd::prelude::*;

verus! {

/// What one probe attempt against one URL observed: either the numeric HTTP
/// status the transport returned (4xx/5xx included — reachability, not
/// semantics, is judged here) or a description of the transport failure.
/// Either way the attempt's own wall time is carried along.
pub enum ProbeOutcome {
    Up { code: u16, elapsed_ms: u64 },
    Down { error: String, elapsed_ms: u64 },
}

impl ProbeOutcome {
    /// Whether the attempt reached the server at all.
    pub open spec fn spec_is_up(&self) -> bool {
        self is Up
    }

    /// The status code of a reaching attempt (`0` otherwise; only read under
    /// `spec_is_up`).
    pub open spec fn spec_code(&self) -> u16 {
        match *self {
            ProbeOutcome::Up { code, .. } => code,
            ProbeOutcome::Down { .. } => 0,
        }
    }

    /// The failure description of a failed attempt (empty otherwise; only read
    /// under `!spec_is_up`).
    pub open spec fn spec_error(&self) -> Seq<char> {
        match *self {
            ProbeOutcome::Up { .. } => Seq::empty(),
            ProbeOutcome::Down { ref error, .. } => error@,
        }
    }

    /// The attempt's own wall time in milliseconds.
    pub open spec fn spec_elapsed_ms(&self) -> u64 {
        match *self {
            ProbeOutcome::Up { elapsed_ms, .. } => elapsed_ms,
            ProbeOutcome::Down { elapsed_ms, .. } => elapsed_ms,
        }
    }

    /// Reads the attempt's own wall time.
    pub fn elapsed_ms(&self) -> (r: u64)
        ensures
            r == self.spec_elapsed_ms(),
    {
        match *self {
            ProbeOutcome::Up { elapsed_ms, .. } => elapsed_ms,
            ProbeOutcome::Down { elapsed_ms, .. } => elapsed_ms,
        }
    }

    /// Reads whether the attempt reached the server.
    pub fn is_up(&self) -> (r: bool)
        ensures
            r == self.spec_is_up(),
    {
        match *self {
            ProbeOutcome::Up { .. } => true,
            ProbeOutcome::Down { .. } => false,
        }
    }
}

/// One finished measurement of one URL: the probed URL, the final outcome
/// (status code on success, the last attempt's error on exhaustion), the wall
/// time from the first attempt's start to the last attempt's end — backoff
/// sleeps included — and the wall-clock second the record was finalized.
pub struct WebsiteStatus {
    pub url: String,
    pub status: Result<u16, String>,
    pub response_time_ms: u64,
    pub timestamp_epoch_secs: u64,
}

/// The mathematical shape of an outcome: the error is read as its character
/// sequence, so that two records agree exactly when they say the same thing.
pub open spec fn status_view(s: Result<u16, String>) -> Result<u16, Seq<char>> {
    match s {
        Ok(code) => Ok(code),
        Err(e) => Err(e@),
    }
}

/// Assembles a finished record from its four parts.
pub fn finish_result(url: &str, status: Result<u16, String>, response_time_ms: u64, timestamp_epoch_secs: u64) -> (r: WebsiteStatus)
    ensures
        r.url@ == url@,
        status_view(r.status) == status_view(status),
        r.response_time_ms == response_time_ms,
        r.timestamp_epoch_secs == timestamp_epoch_secs,
{
    WebsiteStatus { url: url.to_owned(), status, response_time_ms, timestamp_epoch_secs }
}

} // verus!
