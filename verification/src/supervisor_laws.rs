//! What holds of the slot over any sequence of launches and stops.

use crate::launch::{launch_step, ActionModel, EventModel, StageModel};
use crate::probe::{default_target_model, ReadinessOutcome};
use crate::supervisor::{stop_model, ProcessModel, SupervisorError};
use vstd::prelude::*;

verus! {

/// The slot after `n` stops in a row.
pub open spec fn after_stops<H>(slot: Option<ProcessModel<H>>, n: nat) -> Option<ProcessModel<H>>
    decreases n,
{
    if n == 0 {
        slot
    } else {
        after_stops(stop_model(slot).0, (n - 1) as nat)
    }
}

/// Stopping is idempotent: after any number of stops in a row, one at
/// least, the slot is empty, and one more stop hands out no handle and
/// leaves it empty.
pub proof fn law_stop_idempotent<H>(slot: Option<ProcessModel<H>>, n: nat)
    requires
        n >= 1,
    ensures
        after_stops(slot, n) is None,
        stop_model(after_stops(slot, n)) == (None::<ProcessModel<H>>, None::<H>),
    decreases n,
{
    if n > 1 {
        law_stop_idempotent(stop_model(slot).0, (n - 1) as nat);
    } else {
        assert(after_stops(stop_model(slot).0, 0) == stop_model(slot).0);
    }
}

/// A launch that runs its course from an empty slot asks for the lookup,
/// the spawn of what was found and the probe of the default target, in
/// that order. It stores the spawned process when the spawn is reported,
/// and ends as started with the probe's outcome, whether or not the
/// backend became reachable.
pub proof fn law_launch_succeeds<H>(path: Seq<char>, handle: H, outcome: ReadinessOutcome)
    ensures
        ({
            let (s1, slot1, a1) = launch_step::<H>(StageModel::Idle, None, EventModel::Begin);
            let (s2, slot2, a2) = launch_step(s1, slot1, EventModel::Resolved(Some(path)));
            let (s3, slot3, a3) = launch_step(s2, slot2, EventModel::Spawned(Some(handle)));
            let (s4, slot4, a4) = launch_step(s3, slot3, EventModel::Probed(outcome));
            &&& a1 == ActionModel::<H>::Resolve
            &&& slot1 is None
            &&& a2 == ActionModel::<H>::Spawn(path)
            &&& slot2 is None
            &&& a3 == ActionModel::<H>::Probe(default_target_model())
            &&& slot3 == Some(ProcessModel { handle, executable_path: path })
            &&& a4 == ActionModel::<H>::Started(outcome)
            &&& slot4 == slot3
            &&& s4 == StageModel::Done
        }),
{
}

/// While a process is held, a new launch fails at once with
/// `AlreadyRunning`: it asks for no lookup and no spawn, and the process
/// that was held stays in the slot.
pub proof fn law_second_launch_fails<H>(held: ProcessModel<H>)
    ensures
        launch_step(StageModel::Idle, Some(held), EventModel::Begin) == (
            StageModel::Done,
            Some(held),
            ActionModel::<H>::Failed(SupervisorError::AlreadyRunning),
        ),
{
}

/// A launch that is over answers nothing further: every event is handed
/// back, and neither the launch nor the slot changes.
pub proof fn law_done_is_final<H>(slot: Option<ProcessModel<H>>, event: EventModel<H>)
    ensures
        launch_step(StageModel::Done, slot, event) == (
            StageModel::Done,
            slot,
            ActionModel::Ignored(event),
        ),
{
}

/// No step of any launch removes or replaces a process that is held.
pub proof fn law_held_process_stays<H>(
    stage: StageModel,
    held: ProcessModel<H>,
    event: EventModel<H>,
)
    ensures
        launch_step(stage, Some(held), event).1 == Some(held),
{
}

/// A step changes the slot only by storing the process whose spawn it was
/// told of, and it does so exactly when it answers with the probe. A step
/// that ends in failure leaves the slot as it was.
pub proof fn law_slot_changes_only_on_store<H>(
    stage: StageModel,
    slot: Option<ProcessModel<H>>,
    event: EventModel<H>,
)
    ensures
        launch_step(stage, slot, event).2 is Probe <==> launch_step(stage, slot, event).1 != slot,
        launch_step(stage, slot, event).2 is Probe ==> slot is None && event is Spawned
            && event->Spawned_0 is Some && launch_step(stage, slot, event).1 is Some
            && launch_step(stage, slot, event).1->0.handle == event->Spawned_0->0,
{
}

/// After a stop the slot is free again: a launch that follows it is not
/// refused, and stores the process it spawns.
pub proof fn law_launch_after_stop<H>(
    slot: Option<ProcessModel<H>>,
    path: Seq<char>,
    handle: H,
    outcome: ReadinessOutcome,
)
    ensures
        ({
            let freed = stop_model(slot).0;
            let (s1, slot1, a1) = launch_step(StageModel::Idle, freed, EventModel::Begin);
            let (s2, slot2, a2) = launch_step(s1, slot1, EventModel::Resolved(Some(path)));
            let (s3, slot3, a3) = launch_step(s2, slot2, EventModel::Spawned(Some(handle)));
            let (s4, slot4, a4) = launch_step(s3, slot3, EventModel::Probed(outcome));
            &&& a1 == ActionModel::<H>::Resolve
            &&& a4 == ActionModel::<H>::Started(outcome)
            &&& slot4 == Some(ProcessModel { handle, executable_path: path })
        }),
{
}

} // verus!
