//! What a whole run looks like from the observer's side. The driver loop
//! alternates `next_action` and `record_outcome`; `run_trace` composes
//! exactly the step relations those contracts state — `spec_awaiting` for
//! a spawn, `spec_after_success` after a success, an immediate finish
//! after anything else — and the lemmas here prove the queue-order,
//! fail-fast and cancellation laws of that composition.

use vstd::prelude::*;

use crate::engine::JobOutcome;
use crate::engine::Phase;
use crate::engine::RunEngine;
use crate::engine::done_status;
use crate::engine::is_success;
use crate::engine::outcome_line;
use crate::engine::spec_after_success;
use crate::engine::spec_awaiting;
use crate::engine::success_line;

verus! {

/// The observable course of one run: which jobs were spawned, what
/// summary lines the observer was shown, and the final status.
pub struct RunTrace {
    /// The indices of the jobs for which a spawn directive was produced,
    /// in order.
    pub spawned: Seq<int>,
    /// The summary line of each spawned job, in order.
    pub lines: Seq<Seq<char>>,
    /// The final status of the run.
    pub last_status: Seq<char>,
}

/// The course of a run driven from state `s`, with the outcome of job `i`
/// given by `outcomes[i]`. Each call of `next_action` is one round; round
/// `r` prepares job `r`, and a run that stops early makes one closing
/// round more. The cancellation flag is level-triggered — once set it
/// stays set — so observing it is modelled by the first round `cancel_at`
/// from which on every check sees it; a run that is never cancelled has
/// `cancel_at` beyond every round.
///
/// Each round composes the step contracts of the engine: `next_action`
/// takes `s` to `spec_awaiting(s)` and spawns job `s.next`;
/// `record_outcome` yields the job's summary line and, on a success, the
/// state `spec_after_success(spec_awaiting(s))`; on anything else the run
/// finishes (fail fast) and the closing round contributes the final
/// status.
pub open spec fn run_trace(s: RunEngine, outcomes: Seq<JobOutcome>, cancel_at: int) -> RunTrace
    decreases s.jobs@.len() - s.next
        when s.next <= s.jobs@.len() <= usize::MAX
{
    if s.phase == Phase::Finished || s.next >= cancel_at || s.next >= s.jobs@.len() {
        RunTrace {
            spawned: Seq::empty(),
            lines: Seq::empty(),
            last_status: done_status(s.next >= cancel_at),
        }
    } else {
        let job = s.jobs@[s.next as int];
        let o = outcomes[s.next as int];
        let line = outcome_line(job.display_name@, o);
        if is_success(o) {
            let rest = run_trace(spec_after_success(spec_awaiting(s)), outcomes, cancel_at);
            RunTrace {
                spawned: seq![s.next as int] + rest.spawned,
                lines: seq![line] + rest.lines,
                last_status: rest.last_status,
            }
        } else {
            RunTrace {
                spawned: seq![s.next as int],
                lines: seq![line],
                last_status: done_status(s.next + 1 >= cancel_at),
            }
        }
    }
}

/// For a ready engine whose remaining jobs all exit successfully and
/// whose run is never cancelled, the driver spawns every remaining job
/// exactly once, in queue order; each job's success line reaches the
/// observer in that same order; and the run ends in the idle status.
pub proof fn lemma_trace_all_success(s: RunEngine, outcomes: Seq<JobOutcome>, cancel_at: int)
    requires
        s.wf(),
        s.jobs@.len() <= usize::MAX,
        s.phase == Phase::Ready,
        cancel_at > s.jobs@.len(),
        forall|i: int| s.next <= i < s.jobs@.len() ==> is_success(#[trigger] outcomes[i]),
    ensures
        run_trace(s, outcomes, cancel_at).spawned == Seq::new(
            (s.jobs@.len() - s.next) as nat,
            |k: int| s.next + k,
        ),
        run_trace(s, outcomes, cancel_at).lines == Seq::new(
            (s.jobs@.len() - s.next) as nat,
            |k: int| success_line(s.jobs@[s.next + k].display_name@),
        ),
        run_trace(s, outcomes, cancel_at).last_status == done_status(false),
    decreases s.jobs@.len() - s.next,
{
    let t = run_trace(s, outcomes, cancel_at);
    if s.next >= s.jobs@.len() {
        assert(t.spawned =~= Seq::new((s.jobs@.len() - s.next) as nat, |k: int| s.next + k));
        assert(t.lines =~= Seq::new(
            (s.jobs@.len() - s.next) as nat,
            |k: int| success_line(s.jobs@[s.next + k].display_name@),
        ));
    } else {
        let s1 = spec_after_success(spec_awaiting(s));
        lemma_trace_all_success(s1, outcomes, cancel_at);
        assert(t.spawned =~= Seq::new((s.jobs@.len() - s.next) as nat, |k: int| s.next + k));
        assert(t.lines =~= Seq::new(
            (s.jobs@.len() - s.next) as nat,
            |k: int| success_line(s.jobs@[s.next + k].display_name@),
        ));
    }
}

/// When job `k` exits with a failure — or cannot be spawned — and every
/// job before it succeeds, the driver spawns exactly the jobs up to and
/// including `k`: the jobs after `k` are never spawned, and the observer
/// sees the earlier jobs' success lines in order, closed by job `k`'s own
/// failure line. The final status is cancelled exactly when the closing
/// round already observes the flag.
pub proof fn lemma_trace_fail_fast(
    s: RunEngine,
    outcomes: Seq<JobOutcome>,
    cancel_at: int,
    k: int,
)
    requires
        s.wf(),
        s.jobs@.len() <= usize::MAX,
        s.phase == Phase::Ready,
        s.next <= k < s.jobs@.len(),
        cancel_at > k,
        forall|i: int| s.next <= i < k ==> is_success(#[trigger] outcomes[i]),
        !is_success(outcomes[k]),
    ensures
        run_trace(s, outcomes, cancel_at).spawned == Seq::new(
            (k + 1 - s.next) as nat,
            |j: int| s.next + j,
        ),
        run_trace(s, outcomes, cancel_at).lines == Seq::new(
            (k - s.next) as nat,
            |j: int| success_line(s.jobs@[s.next + j].display_name@),
        ).push(outcome_line(s.jobs@[k].display_name@, outcomes[k])),
        run_trace(s, outcomes, cancel_at).last_status == done_status(k + 1 >= cancel_at),
    decreases k - s.next,
{
    let t = run_trace(s, outcomes, cancel_at);
    if s.next == k {
        assert(t.spawned =~= Seq::new((k + 1 - s.next) as nat, |j: int| s.next + j));
        assert(t.lines =~= Seq::new(
            (k - s.next) as nat,
            |j: int| success_line(s.jobs@[s.next + j].display_name@),
        ).push(outcome_line(s.jobs@[k].display_name@, outcomes[k])));
    } else {
        let s1 = spec_after_success(spec_awaiting(s));
        lemma_trace_fail_fast(s1, outcomes, cancel_at, k);
        assert(t.spawned =~= Seq::new((k + 1 - s.next) as nat, |j: int| s.next + j));
        assert(t.lines =~= Seq::new(
            (k - s.next) as nat,
            |j: int| success_line(s.jobs@[s.next + j].display_name@),
        ).push(outcome_line(s.jobs@[k].display_name@, outcomes[k])));
    }
}

/// Cancellation observed before any job has been started ends the run at
/// once: no job is ever spawned, no line reaches the observer, and the
/// final status is the cancelled status.
pub proof fn lemma_trace_cancelled_before_first_spawn(
    s: RunEngine,
    outcomes: Seq<JobOutcome>,
    cancel_at: int,
)
    requires
        s.wf(),
        s.jobs@.len() <= usize::MAX,
        s.phase == Phase::Ready,
        cancel_at <= s.next,
    ensures
        run_trace(s, outcomes, cancel_at).spawned == Seq::<int>::empty(),
        run_trace(s, outcomes, cancel_at).lines == Seq::<Seq<char>>::empty(),
        run_trace(s, outcomes, cancel_at).last_status == done_status(true),
        done_status(true) == "Cancelled"@,
{
}

} // verus!
