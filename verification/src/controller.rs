//! The ingestion loop, as a state machine: which stage follows which, how a
//! cycle ends, and how long the loop waits before the next one. The caller
//! runs the stages and sleeps: it does what the state asks for and hands
//! the answer back as an event.

use crate::import::ImportError;
use crate::provision::ProvisionError;
use crate::refresh::{DataStatus, RefreshError};
use crate::rotation::RotationError;
use vstd::prelude::*;

verus! {

/// Seconds to wait after the database could not be set up.
pub const DELAY_DB_ERROR: u64 = 5 * 60;

/// Seconds to wait after the extract could not be fetched.
pub const DELAY_NETWORK_ERROR: u64 = 60 * 60;

/// Seconds to wait when there is nothing to do, or nothing left to do.
pub const DELAY_NO_WORK: u64 = 8 * 60 * 60;

/// Seconds to wait after the import or the rotation failed.
pub const DELAY_UNKNOWN_ERROR: u64 = 60 * 60;

/// How a cycle ended.
#[derive(Clone, Copy, Debug, PartialEq, Eq, Structural)]
pub enum CycleOutcome {
    ProvisionFailed,
    RefreshFailed,
    NothingToIndex,
    IndexFailed,
    RotateFailed,
    Rotated,
}

impl CycleOutcome {
    /// The delay, in seconds, that follows a cycle with this outcome.
    pub open spec fn delay(self) -> u64 {
        match self {
            CycleOutcome::ProvisionFailed => DELAY_DB_ERROR,
            CycleOutcome::RefreshFailed => DELAY_NETWORK_ERROR,
            CycleOutcome::NothingToIndex => DELAY_NO_WORK,
            CycleOutcome::IndexFailed => DELAY_UNKNOWN_ERROR,
            CycleOutcome::RotateFailed => DELAY_UNKNOWN_ERROR,
            CycleOutcome::Rotated => DELAY_NO_WORK,
        }
    }

    /// The delay, in seconds, that follows a cycle with this outcome.
    pub fn delay_secs(self) -> (secs: u64)
        ensures
            secs == self.delay(),
    {
        match self {
            CycleOutcome::ProvisionFailed => DELAY_DB_ERROR,
            CycleOutcome::RefreshFailed => DELAY_NETWORK_ERROR,
            CycleOutcome::NothingToIndex => DELAY_NO_WORK,
            CycleOutcome::IndexFailed => DELAY_UNKNOWN_ERROR,
            CycleOutcome::RotateFailed => DELAY_UNKNOWN_ERROR,
            CycleOutcome::Rotated => DELAY_NO_WORK,
        }
    }
}

/// Whether the process has rotated the tables yet.
#[derive(Clone, Copy, Debug, PartialEq, Eq, Structural)]
pub enum CycleMode {
    /// No rotation has succeeded since the process began: what the working
    /// directory holds is not trusted, and every refresh is forced.
    ColdStart,
    /// A rotation has succeeded: a refresh goes by the recorded checksum.
    Steady,
}

/// What the loop asks its caller to do next.
#[derive(Clone, Copy, Debug, PartialEq, Eq, Structural)]
pub enum Stage {
    /// Read the source address and the connection string anew; answer with
    /// `Reloaded`.
    Reloading,
    /// Set up the database; answer with `Provisioned`.
    Provisioning,
    /// Refresh the cached extract; answer with `Refreshed`.
    Refreshing,
    /// Run the import tool; answer with `Ingested`.
    Ingesting,
    /// Rotate the tables; answer with `Rotated`.
    Rotating,
    /// The cycle has ended in this way: sleep; answer with `Slept`.
    Sleeping(CycleOutcome),
}

/// What the caller has done for the loop.
#[derive(Clone, Copy, Debug, PartialEq, Eq)]
pub enum CycleEvent {
    Reloaded,
    Provisioned(Result<(), ProvisionError>),
    Refreshed(Result<DataStatus, RefreshError>),
    Ingested(Result<(), ImportError>),
    Rotated(Result<(), RotationError>),
    Slept,
}

/// The ingestion loop at one moment.
#[derive(Clone, Copy, Debug, PartialEq, Eq, Structural)]
pub struct Ingester {
    pub mode: CycleMode,
    pub stage: Stage,
}

impl Ingester {
    /// The loop in the same mode at another stage.
    pub open spec fn at(self, stage: Stage) -> Ingester {
        Ingester { stage, ..self }
    }

    /// The state that follows `self` on `event`. An event that does not
    /// answer what the state asks for changes nothing.
    ///
    /// A stage that fails ends the cycle, and so does a refresh that finds
    /// nothing new. No failure ends the loop: after the sleep it begins
    /// again. The mode changes once, with the first rotation that succeeds.
    pub open spec fn step(self, event: CycleEvent) -> Ingester {
        match (self.stage, event) {
            (Stage::Reloading, CycleEvent::Reloaded) => self.at(Stage::Provisioning),
            (Stage::Provisioning, CycleEvent::Provisioned(result)) => match result {
                Ok(_) => self.at(Stage::Refreshing),
                Err(_) => self.at(Stage::Sleeping(CycleOutcome::ProvisionFailed)),
            },
            (Stage::Refreshing, CycleEvent::Refreshed(result)) => match result {
                Ok(DataStatus::NeedsIndexing) => self.at(Stage::Ingesting),
                Ok(DataStatus::NothingToIndex) => self.at(
                    Stage::Sleeping(CycleOutcome::NothingToIndex),
                ),
                Err(_) => self.at(Stage::Sleeping(CycleOutcome::RefreshFailed)),
            },
            (Stage::Ingesting, CycleEvent::Ingested(result)) => match result {
                Ok(_) => self.at(Stage::Rotating),
                Err(_) => self.at(Stage::Sleeping(CycleOutcome::IndexFailed)),
            },
            (Stage::Rotating, CycleEvent::Rotated(result)) => match result {
                Ok(_) => Ingester {
                    mode: CycleMode::Steady,
                    stage: Stage::Sleeping(CycleOutcome::Rotated),
                },
                Err(_) => self.at(Stage::Sleeping(CycleOutcome::RotateFailed)),
            },
            (Stage::Sleeping(_), CycleEvent::Slept) => self.at(Stage::Reloading),
            _ => self,
        }
    }

    /// Whether a refresh in this state is forced.
    pub open spec fn forces_refresh(self) -> bool {
        self.mode == CycleMode::ColdStart
    }

    /// The loop as the process begins.
    pub fn start() -> (state: Ingester)
        ensures
            state == (Ingester { mode: CycleMode::ColdStart, stage: Stage::Reloading }),
    {
        Ingester { mode: CycleMode::ColdStart, stage: Stage::Reloading }
    }

    /// Whether a refresh in this state is forced.
    pub fn force_refresh(&self) -> (force: bool)
        ensures
            force == self.forces_refresh(),
    {
        match self.mode {
            CycleMode::ColdStart => true,
            CycleMode::Steady => false,
        }
    }

    /// The loop in the same mode at another stage.
    fn moved_to(self, stage: Stage) -> (state: Ingester)
        ensures
            state == self.at(stage),
    {
        Ingester { mode: self.mode, stage }
    }
}

/// Advances the ingestion loop by one event.
pub fn ingester(state: Ingester, event: CycleEvent) -> (next: Ingester)
    ensures
        next == state.step(event),
{
    match state.stage {
        Stage::Reloading => match event {
            CycleEvent::Reloaded => state.moved_to(Stage::Provisioning),
            _ => state,
        },
        Stage::Provisioning => match event {
            CycleEvent::Provisioned(Ok(_)) => state.moved_to(Stage::Refreshing),
            CycleEvent::Provisioned(Err(_)) => state.moved_to(
                Stage::Sleeping(CycleOutcome::ProvisionFailed),
            ),
            _ => state,
        },
        Stage::Refreshing => match event {
            CycleEvent::Refreshed(Ok(DataStatus::NeedsIndexing)) => state.moved_to(
                Stage::Ingesting,
            ),
            CycleEvent::Refreshed(Ok(DataStatus::NothingToIndex)) => state.moved_to(
                Stage::Sleeping(CycleOutcome::NothingToIndex),
            ),
            CycleEvent::Refreshed(Err(_)) => state.moved_to(
                Stage::Sleeping(CycleOutcome::RefreshFailed),
            ),
            _ => state,
        },
        Stage::Ingesting => match event {
            CycleEvent::Ingested(Ok(_)) => state.moved_to(Stage::Rotating),
            CycleEvent::Ingested(Err(_)) => state.moved_to(
                Stage::Sleeping(CycleOutcome::IndexFailed),
            ),
            _ => state,
        },
        Stage::Rotating => match event {
            CycleEvent::Rotated(Ok(_)) => Ingester {
                mode: CycleMode::Steady,
                stage: Stage::Sleeping(CycleOutcome::Rotated),
            },
            CycleEvent::Rotated(Err(_)) => state.moved_to(
                Stage::Sleeping(CycleOutcome::RotateFailed),
            ),
            _ => state,
        },
        Stage::Sleeping(_) => match event {
            CycleEvent::Slept => state.moved_to(Stage::Reloading),
            _ => state,
        },
    }
}

/// What the stages of one cycle come to, for those that are run.
pub struct CycleWorld {
    pub provisioned: Result<(), ProvisionError>,
    pub refreshed: Result<DataStatus, RefreshError>,
    pub ingested: Result<(), ImportError>,
    pub rotated: Result<(), RotationError>,
}

/// How a cycle ends in `world`: with the first stage that fails, with a
/// refresh that finds nothing new, or with the rotation.
pub open spec fn cycle_outcome(world: CycleWorld) -> CycleOutcome {
    if world.provisioned is Err {
        CycleOutcome::ProvisionFailed
    } else if world.refreshed is Err {
        CycleOutcome::RefreshFailed
    } else if world.refreshed == Ok::<DataStatus, RefreshError>(DataStatus::NothingToIndex) {
        CycleOutcome::NothingToIndex
    } else if world.ingested is Err {
        CycleOutcome::IndexFailed
    } else if world.rotated is Err {
        CycleOutcome::RotateFailed
    } else {
        CycleOutcome::Rotated
    }
}

/// What a caller that does as it is asked answers in `state`, in `world`.
pub open spec fn cycle_answer(state: Ingester, world: CycleWorld) -> CycleEvent {
    match state.stage {
        Stage::Reloading => CycleEvent::Reloaded,
        Stage::Provisioning => CycleEvent::Provisioned(world.provisioned),
        Stage::Refreshing => CycleEvent::Refreshed(world.refreshed),
        Stage::Ingesting => CycleEvent::Ingested(world.ingested),
        Stage::Rotating => CycleEvent::Rotated(world.rotated),
        Stage::Sleeping(_) => CycleEvent::Slept,
    }
}

/// The stages that the loop goes through from `state` on, with a caller
/// that answers as `cycle_answer` says, until it is asked to sleep or has
/// taken `steps` steps.
pub open spec fn cycle_course(state: Ingester, world: CycleWorld, steps: nat) -> Seq<Stage>
    decreases steps,
{
    if steps == 0 || state.stage is Sleeping {
        seq![state.stage]
    } else {
        seq![state.stage] + cycle_course(
            state.step(cycle_answer(state, world)),
            world,
            (steps - 1) as nat,
        )
    }
}

/// The state of the loop after `steps` steps from `state` on, with a
/// caller that answers as `cycle_answer` says.
pub open spec fn cycle_after(state: Ingester, world: CycleWorld, steps: nat) -> Ingester
    decreases steps,
{
    if steps == 0 {
        state
    } else {
        cycle_after(state.step(cycle_answer(state, world)), world, (steps - 1) as nat)
    }
}

/// The stages of a cycle that ends as `outcome` says, in order.
pub open spec fn stages_of(outcome: CycleOutcome) -> Seq<Stage> {
    let run = match outcome {
        CycleOutcome::ProvisionFailed => seq![Stage::Reloading, Stage::Provisioning],
        CycleOutcome::RefreshFailed | CycleOutcome::NothingToIndex => seq![
            Stage::Reloading,
            Stage::Provisioning,
            Stage::Refreshing,
        ],
        CycleOutcome::IndexFailed => seq![
            Stage::Reloading,
            Stage::Provisioning,
            Stage::Refreshing,
            Stage::Ingesting,
        ],
        CycleOutcome::RotateFailed | CycleOutcome::Rotated => seq![
            Stage::Reloading,
            Stage::Provisioning,
            Stage::Refreshing,
            Stage::Ingesting,
            Stage::Rotating,
        ],
    };
    run.push(Stage::Sleeping(outcome))
}

/// Every cycle ends in a sleep, whatever fails: it runs its stages in order
/// up to the one that ends it, as `cycle_outcome` says, and runs none after
/// that. The sleep is followed by the next cycle. The mode after the cycle
/// is steady if the cycle has rotated the tables, and as before otherwise.
pub proof fn lemma_cycle_ends_in_sleep(mode: CycleMode, world: CycleWorld, steps: nat)
    requires
        steps >= 5,
    ensures
        ({
            let begin = Ingester { mode, stage: Stage::Reloading };
            let outcome = cycle_outcome(world);
            let slept = (stages_of(outcome).len() - 1) as nat;
            &&& cycle_course(begin, world, steps) == stages_of(outcome)
            &&& cycle_after(begin, world, slept).stage == Stage::Sleeping(outcome)
            &&& cycle_after(begin, world, slept + 1) == (Ingester {
                mode: if outcome == CycleOutcome::Rotated {
                    CycleMode::Steady
                } else {
                    mode
                },
                stage: Stage::Reloading,
            })
        }),
{
    reveal_with_fuel(cycle_course, 7);
    reveal_with_fuel(cycle_after, 8);
    let begin = Ingester { mode, stage: Stage::Reloading };
    assert(cycle_course(begin, world, steps) =~= stages_of(cycle_outcome(world)));
}

/// The loop leaves the cold start only by a rotation that succeeds, and it
/// never returns to it.
pub proof fn lemma_mode_changes_once(state: Ingester, event: CycleEvent)
    ensures
        state.mode == CycleMode::Steady ==> state.step(event).mode == CycleMode::Steady,
        state.step(event).mode != state.mode ==> state.stage == Stage::Rotating && (
        event matches CycleEvent::Rotated(Ok(_))),
        state.stage == Stage::Rotating && (event matches CycleEvent::Rotated(Ok(_)))
            ==> state.step(event).mode == CycleMode::Steady,
{
}

} // verus!
