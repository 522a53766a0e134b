//! Run-wide configuration and the one-way shutdown flag.

use vstd::prelude::*;

verus! {

/// Immutable settings shared by every worker for the lifetime of a run.
///
/// `max_retries` bounds the retries per URL, so each URL is probed at most
/// `max_retries + 1` times; `timeout_ms` bounds each connect, read and write
/// phase of a single attempt; `interval_secs` is `None` for a one-shot run and
/// `Some(s)` to repeat batches every `s` seconds until shutdown.
#[derive(Clone, Copy)]
pub struct Config {
    pub worker_count: usize,
    pub timeout_ms: u64,
    pub max_retries: usize,
    pub interval_secs: Option<u64>,
}

impl Config {
    /// Well-formedness: at least one worker, and a positive per-attempt timeout.
    pub open spec fn wf(&self) -> bool {
        self.worker_count >= 1 && self.timeout_ms >= 1
    }

    /// Builds a configuration, rejecting a workerless pool or a zero timeout.
    pub fn new(
        worker_count: usize,
        timeout_ms: u64,
        max_retries: usize,
        interval_secs: Option<u64>,
    ) -> (r: Option<Config>)
        ensures
            r is Some <==> worker_count >= 1 && timeout_ms >= 1,
            r matches Some(c) ==> c.worker_count == worker_count && c.timeout_ms == timeout_ms
                && c.max_retries == max_retries && c.interval_secs == interval_secs && c.wf(),
    {
        if worker_count >= 1 && timeout_ms >= 1 {
            Some(Config { worker_count, timeout_ms, max_retries, interval_secs })
        } else {
            None
        }
    }
}

/// A process-wide stop request: once raised it stays raised, and nothing here
/// can lower it again.
pub struct ShutdownSignal {
    requested: bool,
}

impl ShutdownSignal {
    /// Whether a stop has been requested.
    pub closed spec fn spec_is_set(&self) -> bool {
        self.requested
    }

    /// A fresh signal, not yet raised.
    pub fn new() -> (r: ShutdownSignal)
        ensures
            !r.spec_is_set(),
    {
        ShutdownSignal { requested: false }
    }

    /// A signal carrying an externally observed flag value.
    pub fn observed(requested: bool) -> (r: ShutdownSignal)
        ensures
            r.spec_is_set() == requested,
    {
        ShutdownSignal { requested }
    }

    /// Requests a stop; the transition is one-way.
    pub fn set(&mut self)
        ensures
            final(self).spec_is_set(),
    {
        self.requested = true;
    }

    /// Reads the flag.
    pub fn is_set(&self) -> (r: bool)
        ensures
            r == self.spec_is_set(),
    {
        self.requested
    }
}

} // verus!
