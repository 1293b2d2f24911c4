//! Readiness probing: poll a TCP endpoint until a connect succeeds.
//!
//! The caller attempts one connect per poll interval and feeds each
//! outcome to `poll_outcome`, which decides whether the wait is over,
//! continues after one more interval, or — in the bounded variant — has
//! exhausted its attempts. A whole wait is modelled by the connectivity
//! trace it would observe: entry `j` says whether the endpoint accepted
//! the connect attempted after `j` intervals.

use vstd::prelude::*;

verus! {

/// The decision after one connect attempt.
#[derive(Clone, Copy, Debug, PartialEq, Eq, Structural)]
pub enum ProbeOutcome {
    /// The connect succeeded: the endpoint is ready.
    Ready,
    /// The connect failed: sleep one poll interval and try again.
    Retry,
    /// The connect failed and the bounded variant has no attempts left.
    TimedOut,
}

/// How a whole wait ends against a finite connectivity trace: ready after
/// a number of failed attempts, or with the trace exhausted.
pub enum ProbeRun {
    Ready(int),
    Exhausted,
}

/// The result of polling along `trace`, one attempt per entry, stopping
/// at the first successful connect.
pub open spec fn probe_run(trace: Seq<bool>) -> ProbeRun
    decreases trace.len(),
{
    if trace.len() == 0 {
        ProbeRun::Exhausted
    } else if trace[0] {
        ProbeRun::Ready(0)
    } else {
        match probe_run(trace.drop_first()) {
            ProbeRun::Ready(k) => ProbeRun::Ready(k + 1),
            ProbeRun::Exhausted => ProbeRun::Exhausted,
        }
    }
}

/// Decide the wait after one connect attempt. `attempt` counts the
/// attempts already made before this one; a limit of `None` retries
/// indefinitely.
pub fn poll_outcome(connected: bool, attempt: u64, max_attempts: Option<u64>) -> (o: ProbeOutcome)
    ensures
        connected <==> o is Ready,
        !connected && (match max_attempts {
            Some(m) => attempt + 1 < m,
            None => true,
        }) ==> o is Retry,
        !connected && (match max_attempts {
            Some(m) => attempt + 1 >= m,
            None => false,
        }) ==> o is TimedOut,
{
    if connected {
        ProbeOutcome::Ready
    } else {
        match max_attempts {
            Some(m) => {
                if attempt >= m || m - attempt <= 1 {
                    ProbeOutcome::TimedOut
                } else {
                    ProbeOutcome::Retry
                }
            },
            None => ProbeOutcome::Retry,
        }
    }
}

/// The wait returns exactly at the first successful connect: it ends
/// ready after `k` failed attempts precisely when attempt `k` is the
/// first that succeeds — never before a connect has succeeded, and never
/// later than the attempt at which one does.
pub proof fn lemma_ready_at_first_success(trace: Seq<bool>, k: int)
    requires
        0 <= k < trace.len(),
        trace[k],
        forall|j: int| 0 <= j < k ==> !trace[j],
    ensures
        probe_run(trace) == ProbeRun::Ready(k),
    decreases k,
{
    if k > 0 {
        lemma_ready_at_first_success(trace.drop_first(), k - 1);
    }
}

/// Conversely, a ready wait points at a successful connect, with every
/// earlier attempt failed.
pub proof fn lemma_ready_is_first_success(trace: Seq<bool>, k: int)
    requires
        probe_run(trace) == ProbeRun::Ready(k),
    ensures
        0 <= k < trace.len(),
        trace[k],
        forall|j: int| 0 <= j < k ==> !trace[j],
    decreases trace.len(),
{
    if trace.len() > 0 && !trace[0] {
        lemma_ready_is_first_success(trace.drop_first(), k - 1);
        assert forall|j: int| 0 <= j < k implies !trace[j] by {
            if j > 0 {
                assert(trace.drop_first()[j - 1] == trace[j]);
            }
        }
    }
}

/// Timing of the wait against a server that starts listening after a
/// delay: if a connect attempted after `j` intervals succeeds exactly
/// when `j * interval` has reached the delay `d`, then the wait returns
/// at an attempt made no earlier than `d` and less than one interval
/// after `d`.
pub proof fn lemma_ready_within_one_interval(trace: Seq<bool>, d: int, interval: int, k: int)
    requires
        interval > 0,
        d > 0,
        forall|j: int| 0 <= j < trace.len() ==> (trace[j] <==> j * interval >= d),
        probe_run(trace) == ProbeRun::Ready(k),
    ensures
        k * interval >= d,
        (k - 1) * interval < d,
{
    lemma_ready_is_first_success(trace, k);
    if k > 0 {
        assert(!trace[k - 1]);
    } else {
        assert((k - 1) * interval == -interval) by (nonlinear_arith)
            requires k == 0, interval > 0;
    }
}

} // verus!
