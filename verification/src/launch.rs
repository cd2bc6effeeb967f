//! Bringing the backend up: the order of the steps and what each outcome
//! leads to.
//!
//! A [`Launch`] is driven by its caller. Each call of [`Launch::step`] takes
//! the outcome of the work last asked for and answers with the work to do
//! next. The supervisor is touched only inside `step`, so a caller that
//! guards it with a lock holds the lock for the length of one call and never
//! while it resolves, spawns or probes.

use crate::probe::{default_target_model, ReadinessOutcome, ReadinessTarget, TargetModel};
use crate::supervisor::{ProcessModel, SupervisedProcess, Supervisor, SupervisorError};
use vstd::prelude::*;

verus! {

/// The outcome of the work that a launch last asked for.
#[derive(Debug, PartialEq, Eq)]
pub enum LaunchEvent<H> {
    /// The caller asks for the backend to be started.
    Begin,
    /// The executable was looked up: its path, or `None` if it is not there.
    Resolved(Option<String>),
    /// The executable was spawned: its handle, or `None` if spawning failed.
    Spawned(Option<H>),
    /// The readiness probe is over.
    Probed(ReadinessOutcome),
}

/// A [`LaunchEvent`] as contracts see it.
pub enum EventModel<H> {
    Begin,
    Resolved(Option<Seq<char>>),
    Spawned(Option<H>),
    Probed(ReadinessOutcome),
}

impl<H> View for LaunchEvent<H> {
    type V = EventModel<H>;

    open spec fn view(&self) -> EventModel<H> {
        match *self {
            LaunchEvent::Begin => EventModel::Begin,
            LaunchEvent::Resolved(Some(path)) => EventModel::Resolved(Some(path@)),
            LaunchEvent::Resolved(None) => EventModel::Resolved(None),
            LaunchEvent::Spawned(handle) => EventModel::Spawned(handle),
            LaunchEvent::Probed(outcome) => EventModel::Probed(outcome),
        }
    }
}

/// The work that a launch asks its caller to do next, or its result.
#[derive(Debug, PartialEq, Eq)]
pub enum LaunchAction<H> {
    /// Look up the backend executable under the resource directory.
    Resolve,
    /// Spawn the executable at this path, with no arguments.
    Spawn(String),
    /// Probe this target until it is ready or the budget is used up.
    Probe(ReadinessTarget),
    /// The backend was started. The outcome says whether it became
    /// reachable; if not, the backend is left running all the same.
    Started(ReadinessOutcome),
    /// The backend was not started.
    Failed(SupervisorError),
    /// A process was spawned but another was held by then. The launch has
    /// failed with [`SupervisorError::AlreadyRunning`], and this handle was
    /// not stored: it is the caller's to terminate.
    Rejected(H),
    /// The event does not answer what the launch last asked for. Nothing
    /// has changed, and the event is handed back.
    Ignored(LaunchEvent<H>),
}

/// A [`LaunchAction`] as contracts see it.
pub enum ActionModel<H> {
    Resolve,
    Spawn(Seq<char>),
    Probe(TargetModel),
    Started(ReadinessOutcome),
    Failed(SupervisorError),
    Rejected(H),
    Ignored(EventModel<H>),
}

impl<H> View for LaunchAction<H> {
    type V = ActionModel<H>;

    open spec fn view(&self) -> ActionModel<H> {
        match *self {
            LaunchAction::Resolve => ActionModel::Resolve,
            LaunchAction::Spawn(path) => ActionModel::Spawn(path@),
            LaunchAction::Probe(target) => ActionModel::Probe(target@),
            LaunchAction::Started(outcome) => ActionModel::Started(outcome),
            LaunchAction::Failed(error) => ActionModel::Failed(error),
            LaunchAction::Rejected(handle) => ActionModel::Rejected(handle),
            LaunchAction::Ignored(event) => ActionModel::Ignored(event@),
        }
    }
}

/// How far a launch has come, as contracts see it.
pub enum StageModel {
    /// Nothing was asked for yet.
    Idle,
    /// The executable is being looked up.
    Resolving,
    /// The executable at this path is being spawned.
    Spawning(Seq<char>),
    /// The process is stored and the probe is under way.
    Probing,
    /// The launch is over.
    Done,
}

/// One step of a launch: the stage and the slot after `event`, and the
/// answer to it.
pub open spec fn launch_step<H>(
    stage: StageModel,
    slot: Option<ProcessModel<H>>,
    event: EventModel<H>,
) -> (StageModel, Option<ProcessModel<H>>, ActionModel<H>) {
    match (stage, event) {
        (StageModel::Idle, EventModel::Begin) => {
            if slot is Some {
                (StageModel::Done, slot, ActionModel::Failed(SupervisorError::AlreadyRunning))
            } else {
                (StageModel::Resolving, slot, ActionModel::Resolve)
            }
        },
        (StageModel::Resolving, EventModel::Resolved(None)) => (
            StageModel::Done,
            slot,
            ActionModel::Failed(SupervisorError::Resolution),
        ),
        (StageModel::Resolving, EventModel::Resolved(Some(path))) => (
            StageModel::Spawning(path),
            slot,
            ActionModel::Spawn(path),
        ),
        (StageModel::Spawning(_), EventModel::Spawned(None)) => (
            StageModel::Done,
            slot,
            ActionModel::Failed(SupervisorError::Spawn),
        ),
        (StageModel::Spawning(path), EventModel::Spawned(Some(handle))) => {
            if slot is Some {
                (StageModel::Done, slot, ActionModel::Rejected(handle))
            } else {
                (
                    StageModel::Probing,
                    Some(ProcessModel { handle, executable_path: path }),
                    ActionModel::Probe(default_target_model()),
                )
            }
        },
        (StageModel::Probing, EventModel::Probed(outcome)) => (
            StageModel::Done,
            slot,
            ActionModel::Started(outcome),
        ),
        _ => (stage, slot, ActionModel::Ignored(event)),
    }
}

enum LaunchStage {
    Idle,
    Resolving,
    Spawning(String),
    Probing,
    Done,
}

/// One attempt to bring the backend up.
pub struct Launch {
    stage: LaunchStage,
}

impl View for Launch {
    type V = StageModel;

    closed spec fn view(&self) -> StageModel {
        match self.stage {
            LaunchStage::Idle => StageModel::Idle,
            LaunchStage::Resolving => StageModel::Resolving,
            LaunchStage::Spawning(path) => StageModel::Spawning(path@),
            LaunchStage::Probing => StageModel::Probing,
            LaunchStage::Done => StageModel::Done,
        }
    }
}

impl Launch {
    /// A launch that has not begun.
    pub fn new() -> (launch: Launch)
        ensures
            launch@ == StageModel::Idle,
    {
        Launch { stage: LaunchStage::Idle }
    }

    /// Whether the launch is over: it has answered with
    /// [`LaunchAction::Started`], [`LaunchAction::Failed`] or
    /// [`LaunchAction::Rejected`].
    pub fn is_done(&self) -> (done: bool)
        ensures
            done == (self@ == StageModel::Done),
    {
        match self.stage {
            LaunchStage::Done => true,
            _ => false,
        }
    }

    /// Takes the outcome of the work last asked for and answers with what
    /// to do next. The first event of a launch is [`LaunchEvent::Begin`].
    pub fn step<H>(&mut self, supervisor: &mut Supervisor<H>, event: LaunchEvent<H>) -> (action:
        LaunchAction<H>)
        ensures
            (final(self)@, final(supervisor)@, action@) == launch_step(
                old(self)@,
                old(supervisor)@,
                event@,
            ),
    {
        let mut stage = LaunchStage::Done;
        std::mem::swap(&mut self.stage, &mut stage);
        match (stage, event) {
            (LaunchStage::Idle, LaunchEvent::Begin) => {
                if supervisor.is_running() {
                    LaunchAction::Failed(SupervisorError::AlreadyRunning)
                } else {
                    self.stage = LaunchStage::Resolving;
                    LaunchAction::Resolve
                }
            },
            (LaunchStage::Resolving, LaunchEvent::Resolved(None)) => LaunchAction::Failed(
                SupervisorError::Resolution,
            ),
            (LaunchStage::Resolving, LaunchEvent::Resolved(Some(path))) => {
                let wanted = path.clone();
                self.stage = LaunchStage::Spawning(path);
                LaunchAction::Spawn(wanted)
            },
            (LaunchStage::Spawning(_), LaunchEvent::Spawned(None)) => LaunchAction::Failed(
                SupervisorError::Spawn,
            ),
            (LaunchStage::Spawning(path), LaunchEvent::Spawned(Some(handle))) => {
                let process = SupervisedProcess { handle, executable_path: path };
                match supervisor.install(process) {
                    Some(refused) => LaunchAction::Rejected(refused.handle),
                    None => {
                        self.stage = LaunchStage::Probing;
                        LaunchAction::Probe(ReadinessTarget::loopback())
                    },
                }
            },
            (LaunchStage::Probing, LaunchEvent::Probed(outcome)) => LaunchAction::Started(
                outcome,
            ),
            (stage, event) => {
                self.stage = stage;
                LaunchAction::Ignored(event)
            },
        }
    }
}

} // verus!
