//! The retry policy: up to `max_retries + 1` sequential probe attempts per
//! URL, an increasing backoff sleep between a failed attempt and the next one,
//! a stop on the first success, and the last attempt's error when every
//! attempt fails. The elapsed time of a finished record spans the first
//! attempt's start to the last attempt's end, backoff sleeps included.

use vstd::prelude::*;

use crate::config::Config;
use crate::outcome::{status_view, ProbeOutcome, WebsiteStatus};

verus! {

/// The index of the first attempt that reached the server, or `plan.len()`
/// when none did.
pub open spec fn first_up_index(plan: Seq<ProbeOutcome>) -> int
    decreases plan.len(),
{
    if plan.len() == 0 {
        0
    } else if plan[0].spec_is_up() {
        0
    } else {
        1 + first_up_index(plan.drop_first())
    }
}

/// How many attempts the policy performs against a plan: it stops right after
/// the first success and otherwise uses the whole plan.
pub open spec fn attempts_used(plan: Seq<ProbeOutcome>) -> int {
    if first_up_index(plan) < plan.len() {
        first_up_index(plan) + 1
    } else {
        plan.len() as int
    }
}

/// The final outcome against a plan: the first success's status code, or —
/// when every attempt fails — the last attempt's error alone; earlier errors
/// are discarded.
pub open spec fn plan_status(plan: Seq<ProbeOutcome>) -> Result<u16, Seq<char>> {
    if first_up_index(plan) < plan.len() {
        Ok(plan[first_up_index(plan)].spec_code())
    } else {
        Err(plan[plan.len() - 1].spec_error())
    }
}

/// The summed wall time of the first `a` attempts of a plan.
pub open spec fn probe_sum(plan: Seq<ProbeOutcome>, a: int) -> int
    decreases a,
{
    if a <= 0 {
        0
    } else {
        probe_sum(plan, a - 1) + plan[a - 1].spec_elapsed_ms()
    }
}

/// The backoff sleep inserted after the failed attempt with this 0-based
/// index: 100 ms after the first attempt, 200 ms after the second, and so on.
pub open spec fn backoff_after(attempt_index: int) -> int {
    100 * (attempt_index + 1)
}

/// The summed backoff sleeps after the first `a` failed attempts.
pub open spec fn backoff_sum(a: int) -> int
    decreases a,
{
    if a <= 0 {
        0
    } else {
        backoff_sum(a - 1) + backoff_after(a - 1)
    }
}

/// The exact elapsed time the policy reports for a plan: every attempt made,
/// plus every backoff sleep — one after each attempt but the last.
pub open spec fn total_elapsed(plan: Seq<ProbeOutcome>) -> int {
    probe_sum(plan, attempts_used(plan)) + backoff_sum(attempts_used(plan) - 1)
}

/// Saturation at the top of `u64`, the arithmetic the engine stores times in.
pub open spec fn sat64(x: int) -> int {
    if x > u64::MAX {
        u64::MAX as int
    } else {
        x
    }
}

/// What a finished record must say about one URL checked against one plan.
pub open spec fn result_matches(
    ws: WebsiteStatus,
    url: Seq<char>,
    plan: Seq<ProbeOutcome>,
    ts: u64,
) -> bool {
    &&& ws.url@ == url
    &&& status_view(ws.status) == plan_status(plan)
    &&& ws.response_time_ms as int == sat64(total_elapsed(plan))
    &&& ws.timestamp_epoch_secs == ts
}

/// What a worker does after seeing one attempt's outcome: finish the record,
/// or sleep for the stated backoff and try again.
pub enum RetryAction {
    Finish,
    Backoff { delay_ms: u64 },
}

/// Saturating a partial sum early loses nothing: adding saturated
/// non-negative parts saturates to the same value as adding the parts exactly.
pub proof fn lemma_sat64_add(s: int, b: int)
    requires
        s >= 0,
        b >= 0,
    ensures
        sat64(sat64(s) + sat64(b)) == sat64(s + b),
{
}

/// `u64` addition that stops at the top instead of wrapping.
pub fn sat_add_u64(a: u64, b: u64) -> (r: u64)
    ensures
        r as int == sat64(a + b),
{
    if a <= u64::MAX - b {
        a + b
    } else {
        u64::MAX
    }
}

/// The backoff delay after the failed attempt with this 0-based index.
pub fn backoff_delay(attempt_index: usize) -> (r: u64)
    ensures
        r as int == sat64(backoff_after(attempt_index as int)),
{
    let a = attempt_index as u64;
    if a <= u64::MAX / 100 - 1 {
        100 * (a + 1)
    } else {
        u64::MAX
    }
}

/// Decides the next step after the attempt with 0-based index `attempt_index`:
/// finish on a success or once the retry budget is spent, otherwise back off
/// for `100 * (attempt_index + 1)` milliseconds and try again.
pub fn retry_decision(attempt_index: usize, max_retries: usize, probe_up: bool) -> (r: RetryAction)
    ensures
        (probe_up || attempt_index >= max_retries) <==> r is Finish,
        r matches RetryAction::Backoff { delay_ms } ==> !probe_up && attempt_index < max_retries
            && delay_ms as int == sat64(backoff_after(attempt_index as int)),
{
    if probe_up || attempt_index >= max_retries {
        RetryAction::Finish
    } else {
        RetryAction::Backoff { delay_ms: backoff_delay(attempt_index) }
    }
}

/// `first_up_index` is what its name says: it lies in the plan, it points at a
/// success preceded by none, and it is the plan's length exactly when the plan
/// holds no success.
pub proof fn lemma_first_up_index(plan: Seq<ProbeOutcome>)
    ensures
        0 <= first_up_index(plan) <= plan.len(),
        first_up_index(plan) < plan.len() ==> plan[first_up_index(plan)].spec_is_up(),
        forall|j: int| 0 <= j < first_up_index(plan) ==> !plan[j].spec_is_up(),
    decreases plan.len(),
{
    if plan.len() == 0 {
    } else if plan[0].spec_is_up() {
    } else {
        let rest = plan.drop_first();
        lemma_first_up_index(rest);
        assert forall|j: int| 0 <= j < first_up_index(plan) implies !plan[j].spec_is_up() by {
            if j >= 1 {
                assert(rest[j - 1] == plan[j]);
                assert(!rest[j - 1].spec_is_up());
            }
        }
    }
}

/// A plan's attempts each take a non-negative time.
pub proof fn lemma_probe_sum_nonneg(plan: Seq<ProbeOutcome>, a: int)
    ensures
        probe_sum(plan, a) >= 0,
    decreases a,
{
    if a > 0 {
        lemma_probe_sum_nonneg(plan, a - 1);
    }
}

/// Summed backoff sleeps never go negative and only grow.
pub proof fn lemma_backoff_sum_nonneg(a: int)
    ensures
        backoff_sum(a) >= 0,
    decreases (if a >= 0 { a } else { 0 }),
{
    if a > 0 {
        lemma_backoff_sum_nonneg(a - 1);
    }
}

/// Retry exhaustion: against a plan on which every attempt fails, the policy
/// makes exactly one attempt per plan entry — `max_retries + 1` of them — and
/// the record carries the last attempt's error, none other.
pub proof fn lemma_retry_exhaustion(plan: Seq<ProbeOutcome>)
    requires
        plan.len() >= 1,
        forall|i: int| 0 <= i < plan.len() ==> !plan[i].spec_is_up(),
    ensures
        attempts_used(plan) == plan.len(),
        plan_status(plan) == Err::<u16, Seq<char>>(plan[plan.len() - 1].spec_error()),
{
    lemma_first_up_index(plan);
}

/// First success after `k` failures: the record carries that success's status
/// code, exactly `k + 1` attempts are made, and the reported elapsed time is
/// at least the `100 ms, 200 ms, …` backoff sleeps those `k` failures forced.
pub proof fn lemma_retry_first_success(plan: Seq<ProbeOutcome>, k: int)
    requires
        0 <= k < plan.len(),
        plan[k].spec_is_up(),
        forall|j: int| 0 <= j < k ==> !plan[j].spec_is_up(),
        backoff_sum(k) <= u64::MAX,
    ensures
        attempts_used(plan) == k + 1,
        plan_status(plan) == Ok::<u16, Seq<char>>(plan[k].spec_code()),
        sat64(total_elapsed(plan)) >= backoff_sum(k),
{
    lemma_first_up_index(plan);
    if first_up_index(plan) < k {
        assert(plan[first_up_index(plan)].spec_is_up());
        assert(false);
    }
    if first_up_index(plan) > k {
        assert(!plan[k].spec_is_up());
        assert(false);
    }
    lemma_probe_sum_nonneg(plan, k + 1);
    lemma_backoff_sum_nonneg(k);
}

/// Runs the retry policy for one URL against a fixed plan of attempt
/// outcomes: entry `i` of the plan is what attempt `i` would observe. Returns
/// the finished record and the number of attempts actually made.
pub fn check_site(url: &str, cfg: &Config, plan: &Vec<ProbeOutcome>, observed_at: u64) -> (r: (
    WebsiteStatus,
    usize,
))
    requires
        cfg.wf(),
        plan@.len() == cfg.max_retries + 1,
    ensures
        r.1 as int == attempts_used(plan@),
        result_matches(r.0, url@, plan@, observed_at),
{
    let n = plan.len();
    let mut elapsed: u64 = 0;
    let mut i: usize = 0;
    loop
        invariant
            n == plan@.len(),
            n == cfg.max_retries + 1,
            0 <= i < n,
            forall|j: int| 0 <= j < i ==> !plan@[j].spec_is_up(),
            elapsed as int == sat64(probe_sum(plan@, i as int) + backoff_sum(i as int)),
        decreases n - i,
    {
        proof {
            lemma_probe_sum_nonneg(plan@, i as int);
            lemma_backoff_sum_nonneg(i as int);
            lemma_sat64_add(
                probe_sum(plan@, i as int) + backoff_sum(i as int),
                plan@[i as int].spec_elapsed_ms() as int,
            );
        }
        let o = &plan[i];
        elapsed = sat_add_u64(elapsed, o.elapsed_ms());
        assert(probe_sum(plan@, i + 1) == probe_sum(plan@, i as int)
            + plan@[i as int].spec_elapsed_ms());
        match o {
            ProbeOutcome::Up { code, .. } => {
                proof {
                    lemma_first_up_index(plan@);
                    if first_up_index(plan@) < i {
                        assert(plan@[first_up_index(plan@)].spec_is_up());
                    }
                    if first_up_index(plan@) > i {
                        assert(!plan@[i as int].spec_is_up());
                    }
                    assert(first_up_index(plan@) == i);
                }
                let ws = WebsiteStatus {
                    url: url.to_owned(),
                    status: Ok(*code),
                    response_time_ms: elapsed,
                    timestamp_epoch_secs: observed_at,
                };
                return (ws, i + 1);
            },
            ProbeOutcome::Down { error, .. } => {
                if i + 1 < n {
                    proof {
                        lemma_probe_sum_nonneg(plan@, i + 1);
                        lemma_sat64_add(
                            probe_sum(plan@, i + 1) + backoff_sum(i as int),
                            backoff_after(i as int),
                        );
                    }
                    elapsed = sat_add_u64(elapsed, backoff_delay(i));
                    assert(backoff_sum(i + 1) == backoff_sum(i as int) + backoff_after(i as int));
                    i = i + 1;
                } else {
                    proof {
                        lemma_first_up_index(plan@);
                        if first_up_index(plan@) < plan@.len() {
                            assert(plan@[first_up_index(plan@)].spec_is_up());
                        }
                        assert(first_up_index(plan@) == plan@.len());
                    }
                    let ws = WebsiteStatus {
                        url: url.to_owned(),
                        status: Err(error.clone()),
                        response_time_ms: elapsed,
                        timestamp_epoch_secs: observed_at,
                    };
                    return (ws, n);
                }
            },
        }
    }
}

} // verus!
