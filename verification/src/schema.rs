//! The three namespaces a managed table can live in, and the statements that
//! move one table from the staging namespace to the live one.

use itertools::Itertools;
use vstd::prelude::*;

verus! {

/// A database namespace that may hold a copy of a managed table.
#[derive(Clone, Copy, Debug, PartialEq, Eq, Structural)]
pub enum Namespace {
    /// Where the import tool writes a fresh copy.
    Staging,
    /// Where readers look.
    Live,
    /// Where the previous live copy is kept.
    Rollback,
}

impl Namespace {
    /// The name of the namespace in the database.
    pub open spec fn spec_name(self) -> Seq<char> {
        match self {
            Namespace::Staging => "import"@,
            Namespace::Live => "public"@,
            Namespace::Rollback => "backup"@,
        }
    }

    /// The name of the namespace in the database.
    pub fn name(self) -> (name: &'static str)
        ensures
            name@ == self.spec_name(),
    {
        match self {
            Namespace::Staging => "import",
            Namespace::Live => "public",
            Namespace::Rollback => "backup",
        }
    }
}

/// One of the tables that the import tool fills.
#[derive(Clone, Copy, Debug, PartialEq, Eq, Structural)]
pub enum ManagedTable {
    Roads,
    Places,
    Entrances,
}

impl ManagedTable {
    /// The name of the table, the same in every namespace.
    pub open spec fn spec_name(self) -> Seq<char> {
        match self {
            ManagedTable::Roads => "osm_roads"@,
            ManagedTable::Places => "osm_places"@,
            ManagedTable::Entrances => "osm_entrances"@,
        }
    }

    /// The table that is handled after this one, if any.
    pub open spec fn spec_next(self) -> Option<ManagedTable> {
        match self {
            ManagedTable::Roads => Some(ManagedTable::Places),
            ManagedTable::Places => Some(ManagedTable::Entrances),
            ManagedTable::Entrances => None,
        }
    }

    /// The managed tables, in the order in which they are handled.
    pub open spec fn spec_all() -> Seq<ManagedTable> {
        seq![ManagedTable::Roads, ManagedTable::Places, ManagedTable::Entrances]
    }

    /// The name of the table, the same in every namespace.
    pub fn name(self) -> (name: &'static str)
        ensures
            name@ == self.spec_name(),
    {
        match self {
            ManagedTable::Roads => "osm_roads",
            ManagedTable::Places => "osm_places",
            ManagedTable::Entrances => "osm_entrances",
        }
    }

    /// The table that is handled first.
    pub fn first() -> (table: ManagedTable)
        ensures
            table == Self::spec_all()[0],
    {
        ManagedTable::Roads
    }

    /// The table that is handled after this one, if any.
    pub fn next(self) -> (following: Option<ManagedTable>)
        ensures
            following == self.spec_next(),
    {
        match self {
            ManagedTable::Roads => Some(ManagedTable::Places),
            ManagedTable::Places => Some(ManagedTable::Entrances),
            ManagedTable::Entrances => None,
        }
    }

    /// The managed tables, in the order in which they are handled.
    pub fn all() -> (tables: Vec<ManagedTable>)
        ensures
            tables@ == Self::spec_all(),
    {
        let mut tables: Vec<ManagedTable> = Vec::new();
        tables.push(ManagedTable::Roads);
        tables.push(ManagedTable::Places);
        tables.push(ManagedTable::Entrances);
        assert(tables@ =~= Self::spec_all());
        tables
    }
}

/// Which namespaces hold a copy of one table.
#[derive(Clone, Copy, Debug, PartialEq, Eq, Structural)]
pub struct TableSnapshot {
    pub staging: bool,
    pub live: bool,
    pub rollback: bool,
}

/// What a lookup that may have failed counts as: a copy is taken to exist
/// only where the lookup succeeded and found one.
pub open spec fn counts_as_present(lookup: Option<bool>) -> bool {
    lookup == Some(true)
}

/// The namespaces in the order in which a table is looked up.
pub open spec fn lookup_order() -> Seq<Namespace> {
    seq![Namespace::Staging, Namespace::Rollback, Namespace::Live]
}

/// The snapshot that the lookups of one table give, taken in the order of
/// `lookup_order`; `None` unless there is one lookup for each namespace.
pub open spec fn snapshot_of(lookups: Seq<Option<bool>>) -> Option<TableSnapshot> {
    if lookups.len() == 3 {
        Some(
            TableSnapshot {
                staging: counts_as_present(lookups[0]),
                rollback: counts_as_present(lookups[1]),
                live: counts_as_present(lookups[2]),
            },
        )
    } else {
        None
    }
}

/// Calls `Itertools::collect_tuple` on the items of `flags`. As that method
/// documents, the result is the tuple of the three items in order if there
/// are exactly three, and `None` otherwise.
#[verifier::external_body]
fn collect_triple(flags: &Vec<bool>) -> (triple: Option<(bool, bool, bool)>)
    ensures
        flags@.len() == 3 ==> triple == Some((flags@[0], flags@[1], flags@[2])),
        flags@.len() != 3 ==> triple is None,
{
    flags.iter().copied().collect_tuple()
}

impl TableSnapshot {
    /// The namespaces in the order in which a table is looked up.
    pub fn lookups() -> (order: Vec<Namespace>)
        ensures
            order@ == lookup_order(),
    {
        let mut order: Vec<Namespace> = Vec::new();
        order.push(Namespace::Staging);
        order.push(Namespace::Rollback);
        order.push(Namespace::Live);
        assert(order@ =~= lookup_order());
        order
    }

    /// Builds the snapshot of one table from its lookups, one for each
    /// namespace in the order of `lookups`. A lookup that failed is `None`
    /// and counts as "no copy there".
    pub fn observe(lookups: &Vec<Option<bool>>) -> (snapshot: Option<TableSnapshot>)
        ensures
            snapshot == snapshot_of(lookups@),
    {
        let mut flags: Vec<bool> = Vec::new();
        let mut at: usize = 0;
        while at < lookups.len()
            invariant
                at <= lookups.len(),
                flags@.len() == at,
                forall|i: int| 0 <= i < at ==> flags@[i] == counts_as_present(#[trigger] lookups@[i]),
            decreases lookups.len() - at,
        {
            let present = match lookups[at] {
                Some(found) => found,
                None => false,
            };
            flags.push(present);
            at = at + 1;
        }
        match collect_triple(&flags) {
            Some((staging, rollback, live)) => Some(TableSnapshot { staging, live, rollback }),
            None => None,
        }
    }
}

/// One statement of a rotation.
#[derive(Clone, Copy, Debug, PartialEq, Eq, Structural)]
pub enum RotationStep {
    /// Drop the copy in the rollback namespace.
    DropRollback,
    /// Move the live copy to the rollback namespace.
    DemoteLive,
    /// Move the staging copy to the live namespace.
    PromoteStaging,
}

/// The steps that rotate a table found as `snapshot` says, in the order in
/// which they are executed. Without a staging copy there is nothing to
/// rotate. The rollback copy is dropped only when the live copy is about to
/// take its place.
pub open spec fn rotation_plan(snapshot: TableSnapshot) -> Seq<RotationStep> {
    if !snapshot.staging {
        seq![]
    } else if snapshot.live && snapshot.rollback {
        seq![RotationStep::DropRollback, RotationStep::DemoteLive, RotationStep::PromoteStaging]
    } else if snapshot.live {
        seq![RotationStep::DemoteLive, RotationStep::PromoteStaging]
    } else {
        seq![RotationStep::PromoteStaging]
    }
}

/// Decides the steps that rotate a table found as `snapshot` says.
pub fn plan_rotation(snapshot: TableSnapshot) -> (steps: Vec<RotationStep>)
    ensures
        steps@ == rotation_plan(snapshot),
{
    let mut steps: Vec<RotationStep> = Vec::new();
    if !snapshot.staging {
        return steps;
    }
    if snapshot.live && snapshot.rollback {
        steps.push(RotationStep::DropRollback);
    }
    if snapshot.live {
        steps.push(RotationStep::DemoteLive);
    }
    steps.push(RotationStep::PromoteStaging);
    steps
}

/// The statement that drops `table` from `schema`.
pub open spec fn drop_table_text(schema: Seq<char>, table: Seq<char>) -> Seq<char> {
    "DROP TABLE "@ + schema + "."@ + table
}

/// The statement that moves `table` from the namespace `current` to the
/// namespace `new`.
pub open spec fn alter_schema_text(current: Seq<char>, new: Seq<char>, table: Seq<char>) -> Seq<
    char,
> {
    "ALTER TABLE "@ + current + "."@ + table + " SET SCHEMA "@ + new
}

impl RotationStep {
    /// The statement that carries out the step on `table`.
    pub open spec fn statement_text(self, table: Seq<char>) -> Seq<char> {
        match self {
            RotationStep::DropRollback => drop_table_text(Namespace::Rollback.spec_name(), table),
            RotationStep::DemoteLive => alter_schema_text(
                Namespace::Live.spec_name(),
                Namespace::Rollback.spec_name(),
                table,
            ),
            RotationStep::PromoteStaging => alter_schema_text(
                Namespace::Staging.spec_name(),
                Namespace::Live.spec_name(),
                table,
            ),
        }
    }

    /// Writes the statement that carries out the step on `table`.
    pub fn statement(self, table: &str) -> (text: String)
        ensures
            text@ == self.statement_text(table@),
    {
        match self {
            RotationStep::DropRollback => drop_table(Namespace::Rollback.name(), table),
            RotationStep::DemoteLive => alter_schema(
                Namespace::Live.name(),
                Namespace::Rollback.name(),
                table,
            ),
            RotationStep::PromoteStaging => alter_schema(
                Namespace::Staging.name(),
                Namespace::Live.name(),
                table,
            ),
        }
    }
}

/// Writes the statement that drops `table` from `schema`.
pub fn drop_table(schema: &str, table: &str) -> (text: String)
    ensures
        text@ == drop_table_text(schema@, table@),
{
    let mut text = String::from_str("DROP TABLE ");
    text.append(schema);
    text.append(".");
    text.append(table);
    text
}

/// Writes the statement that moves `table` from the namespace `current` to
/// the namespace `new`.
pub fn alter_schema(current: &str, new: &str, table: &str) -> (text: String)
    ensures
        text@ == alter_schema_text(current@, new@, table@),
{
    let mut text = String::from_str("ALTER TABLE ");
    text.append(current);
    text.append(".");
    text.append(table);
    text.append(" SET SCHEMA ");
    text.append(new);
    text
}

/// The text sent to the database for `steps` on `table`: the statements in
/// order, each closed by a semicolon and a line break.
pub open spec fn batch_text(steps: Seq<RotationStep>, table: Seq<char>) -> Seq<char>
    decreases steps.len(),
{
    if steps.len() == 0 {
        Seq::empty()
    } else {
        batch_text(steps.drop_last(), table) + steps.last().statement_text(table) + ";\n"@
    }
}

/// Writes the text sent to the database for `steps` on `table`.
pub fn batch(steps: &Vec<RotationStep>, table: &str) -> (text: String)
    ensures
        text@ == batch_text(steps@, table@),
{
    let mut text = String::new();
    let mut done: usize = 0;
    while done < steps.len()
        invariant
            done <= steps.len(),
            text@ == batch_text(steps@.take(done as int), table@),
        decreases steps.len() - done,
    {
        let statement = steps[done].statement(table);
        text.append(statement.as_str());
        text.append(";\n");
        proof {
            let upto = steps@.take(done + 1);
            assert(upto.drop_last() == steps@.take(done as int));
            assert(upto.last() == steps@[done as int]);
        }
        done = done + 1;
    }
    assert(steps@.take(done as int) == steps@);
    text
}

impl RotationStep {
    /// Whether the database can carry out the step on a table found as
    /// `state` says: a copy can be dropped or moved only where there is one,
    /// and moved only to a namespace that holds none.
    pub open spec fn applies(self, state: TableSnapshot) -> bool {
        match self {
            RotationStep::DropRollback => state.rollback,
            RotationStep::DemoteLive => state.live && !state.rollback,
            RotationStep::PromoteStaging => state.staging && !state.live,
        }
    }

    /// Where the copies of a table are once the step has been carried out.
    pub open spec fn effect(self, state: TableSnapshot) -> TableSnapshot {
        match self {
            RotationStep::DropRollback => TableSnapshot { rollback: false, ..state },
            RotationStep::DemoteLive => TableSnapshot { live: false, rollback: true, ..state },
            RotationStep::PromoteStaging => TableSnapshot { staging: false, live: true, ..state },
        }
    }
}

/// Where the copies of a table are once `steps` have been carried out in
/// order, starting from `state`; `None` if the database cannot carry out one
/// of them.
pub open spec fn carry_out(steps: Seq<RotationStep>, state: TableSnapshot) -> Option<TableSnapshot>
    decreases steps.len(),
{
    if steps.len() == 0 {
        Some(state)
    } else if steps.first().applies(state) {
        carry_out(steps.drop_first(), steps.first().effect(state))
    } else {
        None
    }
}

/// A table that has a staging copy is rotated by its plan: the database can
/// carry out every step, the staging copy becomes the live one, and a
/// rollback copy exists afterwards exactly if a live or a rollback copy
/// existed before.
pub proof fn lemma_plan_rotates(snapshot: TableSnapshot)
    requires
        snapshot.staging,
    ensures
        carry_out(rotation_plan(snapshot), snapshot) == Some(
            TableSnapshot {
                staging: false,
                live: true,
                rollback: snapshot.live || snapshot.rollback,
            },
        ),
{
    reveal_with_fuel(carry_out, 4);
    let plan = rotation_plan(snapshot);
    if snapshot.live && snapshot.rollback {
        assert(plan.drop_first() == seq![RotationStep::DemoteLive, RotationStep::PromoteStaging]);
        assert(plan.drop_first().drop_first() == seq![RotationStep::PromoteStaging]);
        assert(plan.drop_first().drop_first().drop_first() == Seq::<RotationStep>::empty());
    } else if snapshot.live {
        assert(plan.drop_first() == seq![RotationStep::PromoteStaging]);
        assert(plan.drop_first().drop_first() == Seq::<RotationStep>::empty());
    } else {
        assert(plan.drop_first() == Seq::<RotationStep>::empty());
    }
}

/// Rotating twice in a row rotates once: when the first rotation has been
/// carried out and no new staging copy has arrived, the plan of the second
/// one is empty. More generally, the plan is empty exactly where there is
/// no staging copy.
pub proof fn lemma_rotation_idempotent(snapshot: TableSnapshot)
    ensures
        !snapshot.staging <==> rotation_plan(snapshot) == Seq::<RotationStep>::empty(),
        carry_out(rotation_plan(snapshot), snapshot) matches Some(after) && rotation_plan(after)
            == Seq::<RotationStep>::empty(),
{
    if snapshot.staging {
        lemma_plan_rotates(snapshot);
        assert(rotation_plan(snapshot).len() > 0);
    } else {
        assert(rotation_plan(snapshot) == Seq::<RotationStep>::empty());
    }
}

/// A table never has two rollback copies: whenever a plan moves the live
/// copy to the rollback namespace, the steps before it have left that
/// namespace empty, and where a rollback copy existed the plan has dropped it
/// in an earlier step.
pub proof fn lemma_single_rollback(snapshot: TableSnapshot, at: int)
    requires
        0 <= at < rotation_plan(snapshot).len(),
        rotation_plan(snapshot)[at] == RotationStep::DemoteLive,
    ensures
        carry_out(rotation_plan(snapshot).take(at), snapshot) matches Some(before)
            && !before.rollback,
        snapshot.rollback ==> at > 0 && rotation_plan(snapshot)[at - 1]
            == RotationStep::DropRollback,
{
    reveal_with_fuel(carry_out, 3);
    let plan = rotation_plan(snapshot);
    if snapshot.rollback {
        assert(at == 1);
        assert(plan.take(1) == seq![RotationStep::DropRollback]);
        assert(plan.take(1).drop_first() == Seq::<RotationStep>::empty());
    } else {
        assert(at == 0);
        assert(plan.take(0) == Seq::<RotationStep>::empty());
    }
}

/// A plan promotes the staging copy exactly where there is one, and it does
/// so in its last step.
pub proof fn lemma_promotes_iff_staged(snapshot: TableSnapshot)
    ensures
        snapshot.staging <==> rotation_plan(snapshot).contains(RotationStep::PromoteStaging),
        snapshot.staging ==> rotation_plan(snapshot).last() == RotationStep::PromoteStaging,
{
    let plan = rotation_plan(snapshot);
    if snapshot.staging {
        assert(plan[plan.len() - 1] == RotationStep::PromoteStaging);
    }
}

} // verus!
