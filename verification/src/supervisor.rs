//! The supervisor slot: the single record that holds the backend process
//! while it runs.
//!
//! The slot is generic in the process handle. The library never looks inside
//! a handle; it stores one when a launch succeeds and hands it back to be
//! terminated when the backend is stopped.

use crate::probe::ReadinessOutcome;
use vstd::prelude::*;

verus! {

/// Where the backend executable lies, relative to the application's
/// resource directory.
pub const BACKEND_RELATIVE_PATH: &'static str = "bin/auto_cl_backend.exe";

/// What can go wrong while the backend is brought up.
#[derive(Clone, Copy, Debug, PartialEq, Eq, Structural)]
pub enum SupervisorError {
    /// The packaged executable could not be located.
    Resolution,
    /// The operating system did not create the process.
    Spawn,
    /// A backend process is already held.
    AlreadyRunning,
    /// The backend did not accept a connection within the probe's budget.
    ReadinessTimeout,
}

impl SupervisorError {
    /// Whether this error ends startup. A backend that cannot be located or
    /// spawned does; one that is merely slow, or already there, does not.
    pub open spec fn spec_aborts_startup(&self) -> bool {
        *self == SupervisorError::Resolution || *self == SupervisorError::Spawn
    }

    /// Whether the host should give up launching on this error.
    #[verifier::when_used_as_spec(spec_aborts_startup)]
    pub fn aborts_startup(&self) -> (fatal: bool)
        ensures
            fatal == self.spec_aborts_startup(),
    {
        match self {
            SupervisorError::Resolution => true,
            SupervisorError::Spawn => true,
            SupervisorError::AlreadyRunning => false,
            SupervisorError::ReadinessTimeout => false,
        }
    }
}

/// The warning that a probe's outcome calls for: a timeout if the backend
/// did not become reachable, none if it did. Startup goes on either way.
pub fn readiness_warning(outcome: ReadinessOutcome) -> (warning: Option<SupervisorError>)
    ensures
        outcome.ready ==> warning is None,
        !outcome.ready ==> warning == Some(SupervisorError::ReadinessTimeout),
{
    if outcome.ready {
        None
    } else {
        Some(SupervisorError::ReadinessTimeout)
    }
}

/// A running backend: its process handle and the path it was started from.
#[derive(Debug, PartialEq, Eq)]
pub struct SupervisedProcess<H> {
    pub handle: H,
    pub executable_path: String,
}

/// A [`SupervisedProcess`] as contracts see it.
pub struct ProcessModel<H> {
    pub handle: H,
    pub executable_path: Seq<char>,
}

impl<H> View for SupervisedProcess<H> {
    type V = ProcessModel<H>;

    open spec fn view(&self) -> ProcessModel<H> {
        ProcessModel { handle: self.handle, executable_path: self.executable_path@ }
    }
}

/// The slot as contracts see it: empty, or holding one process.
pub open spec fn slot_model<H>(slot: Option<SupervisedProcess<H>>) -> Option<ProcessModel<H>> {
    match slot {
        Some(process) => Some(process@),
        None => None,
    }
}

/// What stopping does to a slot: the slot is empty afterwards, and the
/// handle that was held, if any, is handed out.
pub open spec fn stop_model<H>(slot: Option<ProcessModel<H>>) -> (Option<ProcessModel<H>>, Option<H>) {
    match slot {
        Some(process) => (None, Some(process.handle)),
        None => (None, None),
    }
}

/// Owner of the slot. At most one process is held at any time.
pub struct Supervisor<H> {
    slot: Option<SupervisedProcess<H>>,
}

impl<H> View for Supervisor<H> {
    type V = Option<ProcessModel<H>>;

    closed spec fn view(&self) -> Option<ProcessModel<H>> {
        slot_model(self.slot)
    }
}

impl<H> Supervisor<H> {
    /// A supervisor that holds no process.
    pub fn new() -> (supervisor: Supervisor<H>)
        ensures
            supervisor@ is None,
    {
        Supervisor { slot: None }
    }

    /// Whether a process is held.
    pub fn is_running(&self) -> (running: bool)
        ensures
            running == (self@ is Some),
    {
        self.slot.is_some()
    }

    /// The path that the held process was started from, if one is held.
    pub fn executable_path(&self) -> (path: Option<&String>)
        ensures
            self@ is None ==> path is None,
            self@ is Some ==> path is Some && path->0@ == self@->0.executable_path,
    {
        match &self.slot {
            Some(process) => Some(&process.executable_path),
            None => None,
        }
    }

    /// Puts `process` in the slot if it is empty. If a process is already
    /// held, the slot stays as it is and `process` is handed back.
    pub fn install(&mut self, process: SupervisedProcess<H>) -> (refused: Option<
        SupervisedProcess<H>,
    >)
        ensures
            old(self)@ is None ==> refused is None && final(self)@ == Some(process@),
            old(self)@ is Some ==> refused == Some(process) && final(self)@ == old(self)@,
    {
        if self.slot.is_some() {
            Some(process)
        } else {
            self.slot = Some(process);
            None
        }
    }

    /// Empties the slot and hands back the handle that was held, for the
    /// caller to terminate. With nothing held this changes nothing and
    /// returns `None`.
    pub fn stop(&mut self) -> (handle: Option<H>)
        ensures
            (final(self)@, handle) == stop_model(old(self)@),
    {
        match self.slot.take() {
            Some(process) => Some(process.handle),
            None => None,
        }
    }
}

} // verus!
