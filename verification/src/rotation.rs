//! The promotion of the managed tables, one after the other, as a state
//! machine. The caller talks to the database: it does what the state asks
//! for and hands the answer back as an event.

use crate::schema::{batch, batch_text, plan_rotation, rotation_plan, ManagedTable, TableSnapshot};
use vstd::prelude::*;

verus! {

/// Why a rotation as a whole failed.
#[derive(Clone, Copy, Debug, PartialEq, Eq)]
pub enum RotationError {
    /// The database could not be reached.
    Connect,
}

/// What the rotation asks its caller to do next.
#[derive(Clone, Copy, Debug, PartialEq, Eq)]
pub enum Rotation {
    /// Connect to the database; answer with `Connected`.
    Connecting,
    /// Find out which namespaces hold the table; answer with `Inspected`.
    Inspecting(ManagedTable),
    /// The table has no staging copy: report it and leave the table alone;
    /// answer with `Skipped`.
    Skipping(ManagedTable),
    /// Send the batch that rotates the table, which was found as the
    /// snapshot says; answer with `Executed`.
    Executing(ManagedTable, TableSnapshot),
    /// Nothing is left to do; this is the result of the rotation.
    Finished(Result<(), RotationError>),
}

/// What the caller has done for the rotation.
#[derive(Clone, Copy, Debug, PartialEq, Eq)]
pub enum RotationEvent {
    /// The database was reached, or not.
    Connected(bool),
    /// The table was found as the snapshot says.
    Inspected(TableSnapshot),
    /// The missing staging copy has been reported.
    Skipped,
    /// The batch was sent; the database accepted it, or not.
    Executed(bool),
}

impl Rotation {
    /// Where the rotation goes once it is done with `table`, whatever became
    /// of that table.
    pub open spec fn after(table: ManagedTable) -> Rotation {
        match table.spec_next() {
            Some(following) => Rotation::Inspecting(following),
            None => Rotation::Finished(Ok(())),
        }
    }

    /// The state that follows `self` on `event`. An event that does not
    /// answer what the state asks for changes nothing.
    pub open spec fn step(self, event: RotationEvent) -> Rotation {
        match (self, event) {
            (Rotation::Connecting, RotationEvent::Connected(reached)) => if reached {
                Rotation::Inspecting(ManagedTable::spec_all()[0])
            } else {
                Rotation::Finished(Err(RotationError::Connect))
            },
            (Rotation::Inspecting(table), RotationEvent::Inspected(snapshot)) => if snapshot.staging {
                Rotation::Executing(table, snapshot)
            } else {
                Rotation::Skipping(table)
            },
            (Rotation::Skipping(table), RotationEvent::Skipped) => Self::after(table),
            (Rotation::Executing(table, _), RotationEvent::Executed(_)) => Self::after(table),
            _ => self,
        }
    }

    /// The state in which every rotation begins.
    pub fn start() -> (state: Rotation)
        ensures
            state == Rotation::Connecting,
    {
        Rotation::Connecting
    }
}

/// Advances the rotation of the managed tables by one event.
///
/// The tables are handled in the order of `ManagedTable::all`. A table is
/// rotated if it has a staging copy and skipped otherwise. Neither a skipped
/// table nor a batch that the database refused stops the rotation or changes
/// its result: it fails only if the database cannot be reached.
pub fn rotate_schema(state: Rotation, event: RotationEvent) -> (next: Rotation)
    ensures
        next == state.step(event),
{
    match state {
        Rotation::Connecting => match event {
            RotationEvent::Connected(true) => Rotation::Inspecting(ManagedTable::first()),
            RotationEvent::Connected(false) => Rotation::Finished(Err(RotationError::Connect)),
            _ => state,
        },
        Rotation::Inspecting(table) => match event {
            RotationEvent::Inspected(snapshot) => if snapshot.staging {
                Rotation::Executing(table, snapshot)
            } else {
                Rotation::Skipping(table)
            },
            _ => state,
        },
        Rotation::Skipping(table) => match event {
            RotationEvent::Skipped => move_on(table),
            _ => state,
        },
        Rotation::Executing(table, _) => match event {
            RotationEvent::Executed(_) => move_on(table),
            _ => state,
        },
        Rotation::Finished(_) => state,
    }
}

/// Where the rotation goes once it is done with `table`.
fn move_on(table: ManagedTable) -> (next: Rotation)
    ensures
        next == Rotation::after(table),
{
    match table.next() {
        Some(following) => Rotation::Inspecting(following),
        None => Rotation::Finished(Ok(())),
    }
}

/// Writes the batch that rotates `table`, found as `snapshot` says: the
/// statements of its plan in order.
pub fn rotation_batch(table: ManagedTable, snapshot: TableSnapshot) -> (text: String)
    ensures
        text@ == batch_text(rotation_plan(snapshot), table.spec_name()),
{
    let steps = plan_rotation(snapshot);
    batch(&steps, table.name())
}

/// What a caller that does as it is asked answers in `state`, when the
/// database is `reached` or not, holds each table as `found` says and
/// accepts the batch of a table or not as `accepted` says. A finished
/// rotation asks for nothing; the answer given for it changes nothing.
pub open spec fn rotation_answer(
    state: Rotation,
    reached: bool,
    found: spec_fn(ManagedTable) -> TableSnapshot,
    accepted: spec_fn(ManagedTable) -> bool,
) -> RotationEvent {
    match state {
        Rotation::Connecting => RotationEvent::Connected(reached),
        Rotation::Inspecting(table) => RotationEvent::Inspected(found(table)),
        Rotation::Skipping(_) => RotationEvent::Skipped,
        Rotation::Executing(table, _) => RotationEvent::Executed(accepted(table)),
        Rotation::Finished(_) => RotationEvent::Skipped,
    }
}

/// The states that a rotation goes through from `state` on, with a caller
/// that answers as `rotation_answer` says, until it has finished or has
/// taken `steps` steps.
pub open spec fn rotation_course(
    state: Rotation,
    reached: bool,
    found: spec_fn(ManagedTable) -> TableSnapshot,
    accepted: spec_fn(ManagedTable) -> bool,
    steps: nat,
) -> Seq<Rotation>
    decreases steps,
{
    if steps == 0 || state is Finished {
        seq![state]
    } else {
        seq![state] + rotation_course(
            state.step(rotation_answer(state, reached, found, accepted)),
            reached,
            found,
            accepted,
            (steps - 1) as nat,
        )
    }
}

/// What a rotation asks for once it knows how `table` was found: the batch
/// if there is a staging copy, a report otherwise.
pub open spec fn rotation_handling(table: ManagedTable, snapshot: TableSnapshot) -> Rotation {
    if snapshot.staging {
        Rotation::Executing(table, snapshot)
    } else {
        Rotation::Skipping(table)
    }
}

/// Once the database is reached, a rotation looks at every managed table in
/// order, sends a batch for exactly the tables that have a staging copy,
/// skips the others, and succeeds, whichever tables were skipped and
/// whichever batches the database refused.
pub proof fn lemma_rotation_covers_staged_tables(
    found: spec_fn(ManagedTable) -> TableSnapshot,
    accepted: spec_fn(ManagedTable) -> bool,
    steps: nat,
)
    requires
        steps >= 7,
    ensures
        rotation_course(Rotation::Connecting, true, found, accepted, steps) == seq![
            Rotation::Connecting,
            Rotation::Inspecting(ManagedTable::Roads),
            rotation_handling(ManagedTable::Roads, found(ManagedTable::Roads)),
            Rotation::Inspecting(ManagedTable::Places),
            rotation_handling(ManagedTable::Places, found(ManagedTable::Places)),
            Rotation::Inspecting(ManagedTable::Entrances),
            rotation_handling(ManagedTable::Entrances, found(ManagedTable::Entrances)),
            Rotation::Finished(Ok(())),
        ],
{
    reveal_with_fuel(rotation_course, 9);
}

/// A rotation that cannot reach the database fails without looking at any
/// table.
pub proof fn lemma_rotation_needs_connection(
    found: spec_fn(ManagedTable) -> TableSnapshot,
    accepted: spec_fn(ManagedTable) -> bool,
    steps: nat,
)
    requires
        steps >= 1,
    ensures
        rotation_course(Rotation::Connecting, false, found, accepted, steps) == seq![
            Rotation::Connecting,
            Rotation::Finished(Err(RotationError::Connect)),
        ],
{
    reveal_with_fuel(rotation_course, 3);
}

} // verus!
