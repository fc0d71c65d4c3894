//! The run controller: admits at most one active run at a time and hands
//! the driver the engine for an admitted run.

use vstd::prelude::*;

use crate::engine::Phase;
use crate::engine::RunEngine;
use crate::queue::QueuedCommand;

verus! {

/// Why a run request was refused.
#[derive(Clone, Copy, PartialEq, Eq, Structural, Debug)]
pub enum StartError {
    /// The queue of the request was empty.
    NoCommands,
    /// A run is already active; a second request is rejected, never queued
    /// or merged.
    AlreadyRunning,
}

/// Tracks whether a run is active. The driver that owns an admitted run's
/// engine reports back through `finish_run` when the run is over, however
/// it ended.
pub struct RunController {
    pub running: bool,
}

impl RunController {
    /// A controller with no active run.
    pub fn new() -> (r: RunController)
        ensures
            !r.running,
    {
        RunController { running: false }
    }

    /// Whether a run is active.
    pub fn is_running(&self) -> (r: bool)
        ensures
            r == self.running,
    {
        self.running
    }

    /// Admits a run over a non-empty queue when none is active and hands
    /// back a fresh engine for it. A request over an empty queue is
    /// refused outright; a request while a run is active fails with
    /// `AlreadyRunning` and leaves the controller — and the active run's
    /// engine, which this call never touches — exactly as they were.
    pub fn try_start(
        &mut self,
        jobs: Vec<QueuedCommand>,
        cargo_args: Vec<String>,
        program_args: Vec<String>,
        release_selected: bool,
    ) -> (r: Result<RunEngine, StartError>)
        ensures
            jobs@.len() == 0 ==> (r matches Err(e) && e == StartError::NoCommands && *final(self)
                == *old(self)),
            jobs@.len() > 0 && old(self).running ==> (r matches Err(e) && e
                == StartError::AlreadyRunning && *final(self) == *old(self)),
            jobs@.len() > 0 && !old(self).running ==> (r matches Ok(e) && e == (RunEngine {
                jobs,
                cargo_args,
                program_args,
                release_selected,
                next: 0,
                phase: Phase::Ready,
            }) && final(self).running),
    {
        if jobs.len() == 0 {
            return Err(StartError::NoCommands);
        }
        if self.running {
            return Err(StartError::AlreadyRunning);
        }
        self.running = true;
        Ok(RunEngine::new(jobs, cargo_args, program_args, release_selected))
    }

    /// The driver's run is over — completed, failed, or cancelled — and
    /// the controller accepts run requests again.
    pub fn finish_run(&mut self)
        ensures
            !final(self).running,
    {
        self.running = false;
    }
}

} // verus!
