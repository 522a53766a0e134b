//! One batch: enqueue every URL in order unless a shutdown was requested,
//! have the workers check each enqueued URL with the retry policy, and
//! collect exactly one record per enqueued URL.
//!
//! Probe behaviour enters as a plan per URL — entry `i` of a plan is what
//! that URL's attempt `i` would observe — so a batch is a function of its
//! inputs alone, and everything it returns is pinned down here.

use vstd::prelude::*;

use crate::config::{Config, ShutdownSignal};
use crate::outcome::{status_view, ProbeOutcome, WebsiteStatus};
use crate::retry::{check_site, result_matches};

verus! {

/// One plan per job, each long enough for every attempt the policy may make.
pub open spec fn plans_wf(plans: Seq<Vec<ProbeOutcome>>, cfg: Config) -> bool {
    forall|i: int| 0 <= i < plans.len() ==> (#[trigger] plans[i])@.len() == cfg.max_retries + 1
}

/// Everything a batch promises: with a shutdown already requested it yields
/// nothing; otherwise it yields exactly one record per URL, and record `i`
/// says precisely what checking URL `i` against plan `i` says.
pub open spec fn batch_matches(
    results: Seq<WebsiteStatus>,
    urls: Seq<String>,
    plans: Seq<Vec<ProbeOutcome>>,
    ts: u64,
    shut: bool,
) -> bool {
    if shut {
        results.len() == 0
    } else {
        &&& results.len() == urls.len()
        &&& forall|i: int|
            0 <= i < urls.len() ==> result_matches(
                #[trigger] results[i],
                urls[i]@,
                plans[i]@,
                ts,
            )
    }
}

/// The coordinator's enqueue phase: URLs enter the queue in input order, the
/// shutdown flag is consulted before each enqueue, and a raised flag stops
/// the phase before anything is enqueued at all.
pub fn enqueue_jobs(urls: &Vec<String>, shutdown: &ShutdownSignal) -> (r: Vec<String>)
    ensures
        shutdown.spec_is_set() ==> r@.len() == 0,
        !shutdown.spec_is_set() ==> r@.len() == urls@.len() && (forall|i: int|
            0 <= i < urls@.len() ==> (#[trigger] r@[i])@ == urls@[i]@),
{
    let mut jobs: Vec<String> = Vec::new();
    let n = urls.len();
    let mut i: usize = 0;
    while i < n
        invariant
            n == urls@.len(),
            i <= n,
            jobs@.len() == i,
            shutdown.spec_is_set() ==> i == 0,
            forall|j: int| 0 <= j < i ==> (#[trigger] jobs@[j])@ == urls@[j]@,
        decreases n - i,
    {
        if shutdown.is_set() {
            return jobs;
        }
        jobs.push(urls[i].clone());
        i = i + 1;
    }
    jobs
}

/// One worker draining the job queue: it stops at once under a raised
/// shutdown flag, and otherwise checks each pulled job with the retry policy
/// and pushes the record out, one record per job.
pub fn worker_loop(
    jobs: &Vec<String>,
    cfg: &Config,
    shutdown: &ShutdownSignal,
    plans: &Vec<Vec<ProbeOutcome>>,
    observed_at: u64,
) -> (r: Vec<WebsiteStatus>)
    requires
        cfg.wf(),
        !shutdown.spec_is_set() ==> plans@.len() == jobs@.len() && plans_wf(plans@, *cfg),
    ensures
        batch_matches(r@, jobs@, plans@, observed_at, shutdown.spec_is_set()),
{
    let mut out: Vec<WebsiteStatus> = Vec::new();
    if shutdown.is_set() {
        return out;
    }
    let n = jobs.len();
    let mut i: usize = 0;
    while i < n
        invariant
            !shutdown.spec_is_set(),
            cfg.wf(),
            n == jobs@.len(),
            plans@.len() == n,
            plans_wf(plans@, *cfg),
            i <= n,
            out@.len() == i,
            forall|j: int|
                0 <= j < i ==> result_matches(#[trigger] out@[j], jobs@[j]@, plans@[j]@, observed_at),
        decreases n - i,
    {
        let (ws, _attempts) = check_site(jobs[i].as_str(), cfg, &plans[i], observed_at);
        out.push(ws);
        i = i + 1;
    }
    out
}

/// Runs one batch: enqueues the URLs (unless shutdown was requested first),
/// has the pool work the queue off, and returns the collected records.
pub fn run_once(
    urls: &Vec<String>,
    cfg: &Config,
    shutdown: &ShutdownSignal,
    plans: &Vec<Vec<ProbeOutcome>>,
    observed_at: u64,
) -> (r: Vec<WebsiteStatus>)
    requires
        cfg.wf(),
        plans@.len() == urls@.len(),
        plans_wf(plans@, *cfg),
    ensures
        batch_matches(r@, urls@, plans@, observed_at, shutdown.spec_is_set()),
{
    let jobs = enqueue_jobs(urls, shutdown);
    let out = worker_loop(&jobs, cfg, shutdown, plans, observed_at);
    proof {
        if !shutdown.spec_is_set() {
            assert forall|i: int| 0 <= i < urls@.len() implies result_matches(
                #[trigger] out@[i],
                urls@[i]@,
                plans@[i]@,
                observed_at,
            ) by {
                assert(result_matches(out@[i], jobs@[i]@, plans@[i]@, observed_at));
                assert(jobs@[i]@ == urls@[i]@);
            }
        }
    }
    out
}

/// Batch completeness: when shutdown is never requested, a batch yields
/// exactly one result per input URL. The statement mentions no configuration
/// at all, so in particular the worker count plays no part in it.
pub proof fn lemma_batch_complete(
    results: Seq<WebsiteStatus>,
    urls: Seq<String>,
    plans: Seq<Vec<ProbeOutcome>>,
    ts: u64,
)
    requires
        batch_matches(results, urls, plans, ts, false),
    ensures
        results.len() == urls.len(),
{
}

/// Determinism: two batches over the same URLs and the same probe behaviour
/// agree record for record — URL, outcome and elapsed time — whatever
/// wall-clock instants the two runs were finalized at.
pub proof fn lemma_batch_deterministic(
    r1: Seq<WebsiteStatus>,
    r2: Seq<WebsiteStatus>,
    urls: Seq<String>,
    plans: Seq<Vec<ProbeOutcome>>,
    t1: u64,
    t2: u64,
)
    requires
        batch_matches(r1, urls, plans, t1, false),
        batch_matches(r2, urls, plans, t2, false),
    ensures
        r1.len() == r2.len(),
        forall|i: int|
            0 <= i < r1.len() ==> (#[trigger] r1[i]).url@ == r2[i].url@ && status_view(
                r1[i].status,
            ) == status_view(r2[i].status) && r1[i].response_time_ms == r2[i].response_time_ms,
{
    assert forall|i: int|
        0 <= i < r1.len() implies (#[trigger] r1[i]).url@ == r2[i].url@ && status_view(r1[i].status)
        == status_view(r2[i].status) && r1[i].response_time_ms == r2[i].response_time_ms by {
        assert(result_matches(r1[i], urls[i]@, plans[i]@, t1));
        assert(result_matches(r2[i], urls[i]@, plans[i]@, t2));
    }
}

/// A shutdown requested before the batch starts: nothing is enqueued and the
/// batch returns an empty result set.
pub proof fn lemma_shutdown_short_circuit(
    results: Seq<WebsiteStatus>,
    urls: Seq<String>,
    plans: Seq<Vec<ProbeOutcome>>,
    ts: u64,
)
    requires
        batch_matches(results, urls, plans, ts, true),
    ensures
        results.len() == 0,
{
}

} // verus!
