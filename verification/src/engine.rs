//! The run engine: a sequential, fail-fast, cancellable state machine that
//! drives one job queue. A driver loop alternates two calls: `next_action`
//! hands back either a spawn directive for the next job or the final
//! status, and `record_outcome` takes what became of a spawned job. All
//! process handling stays with the driver; every decision and every piece
//! of observer text is produced here.

use vstd::prelude::*;

use crate::queue::QueuedCommand;
use crate::queue::build_full_command;
use crate::queue::spec_full_command;
use crate::text::append_dec;
use crate::text::dec_spec;

verus! {

/// Where the engine stands between calls of its driver.
#[derive(Clone, Copy, PartialEq, Eq, Structural, Debug)]
pub enum Phase {
    /// The next job, if any, may be prepared.
    Ready,
    /// A spawn directive is outstanding and its outcome is not yet
    /// recorded.
    Awaiting,
    /// The run is over.
    Finished,
}

/// What became of one spawned job, as the driver observed it.
pub enum JobOutcome {
    /// The process ran to an exit; `success` mirrors its exit status, and
    /// `status_text` is that status rendered for the failure line.
    Exited { success: bool, status_text: String },
    /// The process could not be spawned or its output could not be wired
    /// up; `message` describes the failure.
    SpawnFailed { message: String },
}

/// The outcome counts as a success exactly when the process exited
/// successfully.
pub open spec fn is_success(o: JobOutcome) -> bool {
    o matches JobOutcome::Exited { success: true, .. }
}

/// What the driver is to do next.
pub enum RunStep {
    /// Spawn the external tool with `argv`. The observer is first shown
    /// `notice` when present, then the progress `status`.
    Spawn { argv: Vec<String>, notice: Option<String>, status: String },
    /// The run is over: show the final `status` and report not running.
    Done { status: String },
}

/// What the observer is shown after a job's outcome: a summary `line`, and
/// a terminal failure `status` only when the spawn itself failed.
pub struct OutcomeReport {
    pub line: String,
    pub failure_status: Option<String>,
}

/// The status shown while a run of `total` jobs starts.
pub open spec fn running_status(total: nat) -> Seq<char> {
    "Running "@ + dec_spec(total) + " command(s)…"@
}

/// The progress status shown before job `position` of `total` runs.
pub open spec fn progress_status(position: nat, total: nat, display: Seq<char>) -> Seq<char> {
    "["@ + dec_spec(position) + "/"@ + dec_spec(total) + "] cargo "@ + display
}

/// The notice shown when release mode is on but the job cannot take the
/// flag.
pub open spec fn release_notice(display: Seq<char>) -> Seq<char> {
    "ℹ ignoring --release for cargo "@ + display
}

/// The summary line of a job that exited successfully.
pub open spec fn success_line(display: Seq<char>) -> Seq<char> {
    "✔ cargo "@ + display + " completed"@
}

/// The summary line of a job that exited with a failure status.
pub open spec fn exit_failure_line(display: Seq<char>, status_text: Seq<char>) -> Seq<char> {
    "✖ cargo "@ + display + " exited with status "@ + status_text
}

/// The summary line of a job that could not be spawned.
pub open spec fn spawn_failure_line(display: Seq<char>, message: Seq<char>) -> Seq<char> {
    "⚠ failed to run cargo "@ + display + ": "@ + message
}

/// The terminal status after a spawn failure.
pub open spec fn failed_status(message: Seq<char>) -> Seq<char> {
    "Failed: "@ + message
}

/// The final status of a run: cancelled when the flag was observed set,
/// idle otherwise.
pub open spec fn done_status(cancel_seen: bool) -> Seq<char> {
    if cancel_seen {
        "Cancelled"@
    } else {
        "Idle"@
    }
}

/// The summary line a job's outcome produces.
pub open spec fn outcome_line(display: Seq<char>, outcome: JobOutcome) -> Seq<char> {
    match outcome {
        JobOutcome::Exited { success, status_text } => if success {
            success_line(display)
        } else {
            exit_failure_line(display, status_text@)
        },
        JobOutcome::SpawnFailed { message } => spawn_failure_line(display, message@),
    }
}

/// The engine for one run: the queue, the global options fixed when the
/// run started, and the driver's position in the queue.
#[derive(Debug)]
pub struct RunEngine {
    pub jobs: Vec<QueuedCommand>,
    pub cargo_args: Vec<String>,
    pub program_args: Vec<String>,
    pub release_selected: bool,
    /// The index of the next job to prepare; jobs before it are done.
    pub next: usize,
    pub phase: Phase,
}

impl RunEngine {
    /// The engine's position stays within its queue.
    pub open spec fn wf(self) -> bool {
        &&& self.next <= self.jobs@.len()
        &&& self.phase == Phase::Awaiting ==> self.next < self.jobs@.len()
    }
}

/// The engine once a run has finished: only the phase changes.
pub open spec fn spec_finished(s: RunEngine) -> RunEngine {
    RunEngine { phase: Phase::Finished, ..s }
}

/// The engine while a spawn directive is outstanding.
pub open spec fn spec_awaiting(s: RunEngine) -> RunEngine {
    RunEngine { phase: Phase::Awaiting, ..s }
}

/// The engine after a job succeeded: it moves to the next job.
pub open spec fn spec_after_success(s: RunEngine) -> RunEngine {
    RunEngine { phase: Phase::Ready, next: (s.next + 1) as usize, ..s }
}

/// Whether a call of `next_action` ends the run: the run already finished
/// (a failed job), cancellation was observed, or the queue is exhausted.
pub open spec fn spec_finishes(s: RunEngine, cancel_seen: bool) -> bool {
    s.phase == Phase::Finished || cancel_seen || s.next >= s.jobs@.len()
}

impl RunEngine {
    /// Sets up the engine for one run over this queue with these options.
    pub fn new(
        jobs: Vec<QueuedCommand>,
        cargo_args: Vec<String>,
        program_args: Vec<String>,
        release_selected: bool,
    ) -> (r: RunEngine)
        ensures
            r == (RunEngine {
                jobs,
                cargo_args,
                program_args,
                release_selected,
                next: 0,
                phase: Phase::Ready,
            }),
            r.wf(),
    {
        RunEngine { jobs, cargo_args, program_args, release_selected, next: 0, phase: Phase::Ready }
    }

    /// The status the observer is shown when the run starts.
    pub fn start_status(&self) -> (r: String)
        ensures
            r@ == running_status(self.jobs@.len()),
    {
        let mut s: String = "Running ".to_owned();
        append_dec(&mut s, self.jobs.len() as u64);
        s.append(" command(s)…");
        proof {
            assert(s@ =~= running_status(self.jobs@.len()));
        }
        s
    }

    /// Decides what the driver does next. With cancellation observed, a
    /// finished run, or an exhausted queue the run ends and the final
    /// status is returned; otherwise the next job's spawn directive is
    /// produced: its assembled argument vector, the release notice exactly
    /// when release mode is on but the job does not support it, and the
    /// progress status.
    pub fn next_action(&mut self, cancel_seen: bool) -> (r: RunStep)
        requires
            old(self).wf(),
            old(self).phase != Phase::Awaiting,
        ensures
            final(self).wf(),
            spec_finishes(*old(self), cancel_seen) ==> (r matches RunStep::Done { status }
                && status@ == done_status(cancel_seen) && *final(self) == spec_finished(
                *old(self),
            )),
            !spec_finishes(*old(self), cancel_seen) ==> (r matches RunStep::Spawn {
                argv,
                notice,
                status,
            } && *final(self) == spec_awaiting(*old(self)) && ({
                let job = old(self).jobs@[old(self).next as int];
                &&& argv.deep_view() == spec_full_command(
                    job,
                    old(self).release_selected,
                    old(self).cargo_args.deep_view(),
                    old(self).program_args.deep_view(),
                )
                &&& (notice is Some <==> old(self).release_selected && !job.supports_release)
                &&& (notice matches Some(n) ==> n@ == release_notice(job.display_name@))
                &&& status@ == progress_status(
                    (old(self).next + 1) as nat,
                    old(self).jobs@.len(),
                    job.display_name@,
                )
            })),
    {
        if self.phase == Phase::Finished || cancel_seen || self.next >= self.jobs.len() {
            self.phase = Phase::Finished;
            let status: String = if cancel_seen {
                "Cancelled".to_owned()
            } else {
                "Idle".to_owned()
            };
            RunStep::Done { status }
        } else {
            let argv = build_full_command(
                &self.jobs[self.next],
                self.release_selected,
                &self.cargo_args,
                &self.program_args,
            );
            let notice: Option<String> = if self.release_selected
                && !self.jobs[self.next].supports_release {
                let mut n: String = "ℹ ignoring --release for cargo ".to_owned();
                n.append(self.jobs[self.next].display_name.as_str());
                Some(n)
            } else {
                None
            };
            let mut status: String = "[".to_owned();
            append_dec(&mut status, (self.next + 1) as u64);
            status.append("/");
            append_dec(&mut status, self.jobs.len() as u64);
            status.append("] cargo ");
            status.append(self.jobs[self.next].display_name.as_str());
            proof {
                assert(status@ =~= progress_status(
                    (self.next + 1) as nat,
                    self.jobs@.len(),
                    self.jobs@[self.next as int].display_name@,
                ));
            }
            self.phase = Phase::Awaiting;
            RunStep::Spawn { argv, notice, status }
        }
    }

    /// Takes what became of the spawned job. A success advances the queue;
    /// a failure exit or a spawn failure finishes the run (fail fast). The
    /// returned report carries the job's summary line, and the terminal
    /// failure status when the spawn itself failed.
    pub fn record_outcome(&mut self, outcome: JobOutcome) -> (r: OutcomeReport)
        requires
            old(self).wf(),
            old(self).phase == Phase::Awaiting,
        ensures
            final(self).wf(),
            r.line@ == outcome_line(old(self).jobs@[old(self).next as int].display_name@, outcome),
            is_success(outcome) ==> (*final(self) == spec_after_success(*old(self))
                && r.failure_status is None),
            outcome matches JobOutcome::Exited { success: false, .. } ==> (*final(self)
                == spec_finished(*old(self)) && r.failure_status is None),
            outcome matches JobOutcome::SpawnFailed { message } ==> (r.failure_status matches Some(
                fs,
            ) && fs@ == failed_status(message@) && *final(self) == spec_finished(*old(self))),
    {
        let display = self.jobs[self.next].display_name.clone();
        let ghost job_display = self.jobs@[self.next as int].display_name@;
        match outcome {
            JobOutcome::Exited { success, status_text } => {
                if success {
                    let mut line: String = "✔ cargo ".to_owned();
                    line.append(display.as_str());
                    line.append(" completed");
                    proof {
                        assert(line@ =~= success_line(job_display));
                    }
                    let total = self.jobs.len();
                    assert(self.next < total);
                    self.next = self.next + 1;
                    self.phase = Phase::Ready;
                    OutcomeReport { line, failure_status: None }
                } else {
                    let mut line: String = "✖ cargo ".to_owned();
                    line.append(display.as_str());
                    line.append(" exited with status ");
                    line.append(status_text.as_str());
                    proof {
                        assert(line@ =~= exit_failure_line(job_display, status_text@));
                    }
                    self.phase = Phase::Finished;
                    OutcomeReport { line, failure_status: None }
                }
            },
            JobOutcome::SpawnFailed { message } => {
                let mut line: String = "⚠ failed to run cargo ".to_owned();
                line.append(display.as_str());
                line.append(": ");
                line.append(message.as_str());
                let mut fs: String = "Failed: ".to_owned();
                fs.append(message.as_str());
                proof {
                    assert(line@ =~= spawn_failure_line(job_display, message@));
                    assert(fs@ =~= failed_status(message@));
                }
                self.phase = Phase::Finished;
                OutcomeReport { line, failure_status: Some(fs) }
            },
        }
    }
}

} // verus!
