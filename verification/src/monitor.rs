//! The scheduler: one batch rendered to its output lines, and the decision
//! whether — and after how long a sleep — another batch follows.

use vstd::prelude::*;

use crate::batch::{batch_matches, plans_wf, run_once};
use crate::config::{Config, ShutdownSignal};
use crate::outcome::ProbeOutcome;
use crate::render::{render_batch, render_line_spec};
use crate::retry::{plan_status, sat64, total_elapsed};

verus! {

/// The exact output line for URL `i` of a batch run against its plan.
pub open spec fn batch_line(url: Seq<char>, plan: Vec<ProbeOutcome>, ts: u64) -> Seq<char> {
    render_line_spec(url, plan_status(plan@), sat64(total_elapsed(plan@)) as u64, ts)
}

/// Runs one batch and renders its records: no lines under a shutdown
/// requested up front, otherwise exactly one JSON line per URL, each pinned
/// to its URL's plan.
pub fn run_monitor(
    urls: &Vec<String>,
    cfg: &Config,
    shutdown: &ShutdownSignal,
    plans: &Vec<Vec<ProbeOutcome>>,
    observed_at: u64,
) -> (lines: Vec<String>)
    requires
        cfg.wf(),
        plans@.len() == urls@.len(),
        plans_wf(plans@, *cfg),
    ensures
        shutdown.spec_is_set() ==> lines@.len() == 0,
        !shutdown.spec_is_set() ==> lines@.len() == urls@.len() && (forall|i: int|
            0 <= i < urls@.len() ==> (#[trigger] lines@[i])@ == batch_line(
                urls@[i]@,
                plans@[i],
                observed_at,
            )),
{
    let results = run_once(urls, cfg, shutdown, plans, observed_at);
    let lines = render_batch(&results);
    proof {
        if !shutdown.spec_is_set() {
            assert(batch_matches(results@, urls@, plans@, observed_at, false));
            assert forall|i: int| 0 <= i < urls@.len() implies (#[trigger] lines@[i])@
                == batch_line(urls@[i]@, plans@[i], observed_at) by {
                assert(crate::retry::result_matches(
                    results@[i],
                    urls@[i]@,
                    plans@[i]@,
                    observed_at,
                ));
            }
        }
    }
    lines
}

/// The scheduler's decision after one batch: sleep and repeat exactly when an
/// interval is configured and no shutdown has been requested; stop otherwise.
pub fn should_run_again(cfg: &Config, shutdown: &ShutdownSignal) -> (r: Option<u64>)
    ensures
        r == (if cfg.interval_secs is Some && !shutdown.spec_is_set() {
            cfg.interval_secs
        } else {
            None::<u64>
        }),
{
    if shutdown.is_set() {
        None
    } else {
        match cfg.interval_secs {
            Some(s) => Some(s),
            None => None,
        }
    }
}

} // verus!
