use osm_ingester::rotation::{rotate_schema, rotation_batch, Rotation, RotationError, RotationEvent};
use osm_ingester::schema::{plan_rotation, ManagedTable, RotationStep, TableSnapshot};

/// A database that holds each managed table as its snapshot says.
struct FakeDatabase {
    reachable: bool,
    refuses: Vec<ManagedTable>,
    tables: Vec<(ManagedTable, TableSnapshot)>,
    batches: Vec<String>,
    skipped: Vec<ManagedTable>,
}

fn database(roads: TableSnapshot, places: TableSnapshot, entrances: TableSnapshot) -> FakeDatabase {
    FakeDatabase {
        reachable: true,
        refuses: vec![],
        tables: vec![
            (ManagedTable::Roads, roads),
            (ManagedTable::Places, places),
            (ManagedTable::Entrances, entrances),
        ],
        batches: vec![],
        skipped: vec![],
    }
}

fn snapshot(staging: bool, live: bool, rollback: bool) -> TableSnapshot {
    TableSnapshot { staging, live, rollback }
}

fn found(db: &FakeDatabase, table: ManagedTable) -> TableSnapshot {
    db.tables.iter().find(|(t, _)| *t == table).unwrap().1
}

fn carry_out(db: &mut FakeDatabase, table: ManagedTable, steps: &[RotationStep]) {
    let entry = db.tables.iter_mut().find(|(t, _)| *t == table).unwrap();
    for step in steps {
        match step {
            RotationStep::DropRollback => {
                assert!(entry.1.rollback);
                entry.1.rollback = false;
            }
            RotationStep::DemoteLive => {
                assert!(entry.1.live && !entry.1.rollback);
                entry.1.live = false;
                entry.1.rollback = true;
            }
            RotationStep::PromoteStaging => {
                assert!(entry.1.staging && !entry.1.live);
                entry.1.staging = false;
                entry.1.live = true;
            }
        }
    }
}

fn rotate(db: &mut FakeDatabase) -> Result<(), RotationError> {
    let mut state = Rotation::start();
    for _ in 0..20 {
        let event = match state {
            Rotation::Connecting => RotationEvent::Connected(db.reachable),
            Rotation::Inspecting(table) => RotationEvent::Inspected(found(db, table)),
            Rotation::Skipping(table) => {
                db.skipped.push(table);
                RotationEvent::Skipped
            }
            Rotation::Executing(table, snapshot) => {
                db.batches.push(rotation_batch(table, snapshot));
                if db.refuses.contains(&table) {
                    RotationEvent::Executed(false)
                } else {
                    carry_out(db, table, &plan_rotation(snapshot));
                    RotationEvent::Executed(true)
                }
            }
            Rotation::Finished(result) => return result,
        };
        state = rotate_schema(state, event);
    }
    panic!("the rotation did not finish");
}

#[test]
fn rotation_begins_by_connecting() {
    assert_eq!(Rotation::start(), Rotation::Connecting);
}

#[test]
fn rotation_fails_only_without_a_connection() {
    let mut db = database(snapshot(true, true, true), snapshot(true, false, false), snapshot(true, true, false));
    db.reachable = false;
    assert_eq!(rotate(&mut db), Err(RotationError::Connect));
    assert!(db.batches.is_empty());
    assert!(db.skipped.is_empty());
}

#[test]
fn rotation_promotes_exactly_the_staged_tables() {
    let mut db = database(snapshot(true, true, false), snapshot(false, true, true), snapshot(true, false, false));
    assert_eq!(rotate(&mut db), Ok(()));
    assert_eq!(db.skipped, vec![ManagedTable::Places]);
    assert_eq!(
        db.batches,
        vec![
            "ALTER TABLE public.osm_roads SET SCHEMA backup;\nALTER TABLE import.osm_roads SET SCHEMA public;\n".to_string(),
            "ALTER TABLE import.osm_entrances SET SCHEMA public;\n".to_string(),
        ]
    );
    assert_eq!(found(&db, ManagedTable::Roads), snapshot(false, true, true));
    assert_eq!(found(&db, ManagedTable::Places), snapshot(false, true, true));
    assert_eq!(found(&db, ManagedTable::Entrances), snapshot(false, true, false));
}

#[test]
fn rotation_skips_every_table_without_failing() {
    let mut db = database(snapshot(false, true, false), snapshot(false, false, false), snapshot(false, true, true));
    assert_eq!(rotate(&mut db), Ok(()));
    assert_eq!(
        db.skipped,
        vec![ManagedTable::Roads, ManagedTable::Places, ManagedTable::Entrances]
    );
    assert!(db.batches.is_empty());
}

#[test]
fn rotating_twice_rotates_once() {
    let mut db = database(snapshot(true, true, true), snapshot(true, true, false), snapshot(true, false, true));
    assert_eq!(rotate(&mut db), Ok(()));
    assert_eq!(db.batches.len(), 3);
    let after_first: Vec<TableSnapshot> = db.tables.iter().map(|(_, s)| *s).collect();
    db.batches.clear();
    db.skipped.clear();
    assert_eq!(rotate(&mut db), Ok(()));
    assert!(db.batches.is_empty());
    assert_eq!(db.skipped.len(), 3);
    let after_second: Vec<TableSnapshot> = db.tables.iter().map(|(_, s)| *s).collect();
    assert_eq!(after_first, after_second);
}

#[test]
fn a_refused_batch_does_not_stop_the_other_tables() {
    let mut db = database(snapshot(true, true, true), snapshot(true, true, true), snapshot(true, true, true));
    db.refuses = vec![ManagedTable::Roads];
    assert_eq!(rotate(&mut db), Ok(()));
    assert_eq!(db.batches.len(), 3);
    assert_eq!(found(&db, ManagedTable::Roads), snapshot(true, true, true));
    assert_eq!(found(&db, ManagedTable::Places), snapshot(false, true, true));
    assert_eq!(found(&db, ManagedTable::Entrances), snapshot(false, true, true));
}

#[test]
fn rotation_with_all_three_copies_sends_three_statements_in_order() {
    let text = rotation_batch(ManagedTable::Roads, snapshot(true, true, true));
    assert_eq!(
        text,
        "DROP TABLE backup.osm_roads;\n\
         ALTER TABLE public.osm_roads SET SCHEMA backup;\n\
         ALTER TABLE import.osm_roads SET SCHEMA public;\n"
    );
}

#[test]
fn rotation_without_rollback_copy_sends_no_drop() {
    let text = rotation_batch(ManagedTable::Entrances, snapshot(true, true, false));
    assert_eq!(
        text,
        "ALTER TABLE public.osm_entrances SET SCHEMA backup;\n\
         ALTER TABLE import.osm_entrances SET SCHEMA public;\n"
    );
    assert!(!text.contains("DROP"));
}

#[test]
fn rotation_ignores_an_event_it_did_not_ask_for() {
    assert_eq!(rotate_schema(Rotation::Connecting, RotationEvent::Skipped), Rotation::Connecting);
    assert_eq!(
        rotate_schema(Rotation::Inspecting(ManagedTable::Roads), RotationEvent::Executed(true)),
        Rotation::Inspecting(ManagedTable::Roads)
    );
    assert_eq!(
        rotate_schema(Rotation::Skipping(ManagedTable::Roads), RotationEvent::Connected(true)),
        Rotation::Skipping(ManagedTable::Roads)
    );
    assert_eq!(
        rotate_schema(Rotation::Finished(Ok(())), RotationEvent::Connected(false)),
        Rotation::Finished(Ok(()))
    );
}

#[test]
fn rotation_steps_one_table_at_a_time() {
    let staged = snapshot(true, false, false);
    let state = rotate_schema(Rotation::Connecting, RotationEvent::Connected(true));
    assert_eq!(state, Rotation::Inspecting(ManagedTable::Roads));
    let state = rotate_schema(state, RotationEvent::Inspected(staged));
    assert_eq!(state, Rotation::Executing(ManagedTable::Roads, staged));
    let state = rotate_schema(state, RotationEvent::Executed(false));
    assert_eq!(state, Rotation::Inspecting(ManagedTable::Places));
    let state = rotate_schema(state, RotationEvent::Inspected(snapshot(false, true, true)));
    assert_eq!(state, Rotation::Skipping(ManagedTable::Places));
    let state = rotate_schema(state, RotationEvent::Skipped);
    assert_eq!(state, Rotation::Inspecting(ManagedTable::Entrances));
    let state = rotate_schema(state, RotationEvent::Inspected(staged));
    let state = rotate_schema(state, RotationEvent::Executed(true));
    assert_eq!(state, Rotation::Finished(Ok(())));
}
