use osm_ingester::controller::{
    ingester, CycleEvent, CycleMode, CycleOutcome, Ingester, Stage, DELAY_DB_ERROR,
    DELAY_NETWORK_ERROR, DELAY_NO_WORK, DELAY_UNKNOWN_ERROR,
};
use osm_ingester::import::{import_result, ImportError, ToolExit};
use osm_ingester::provision::ProvisionError;
use osm_ingester::refresh::{refresh_pbf, DataStatus, Refresh, RefreshError, RefreshEvent, RefreshPhase};
use osm_ingester::rotation::RotationError;

fn at(mode: CycleMode, stage: Stage) -> Ingester {
    Ingester { mode, stage }
}

/// Runs one cycle from the reload to the sleep and returns the stages that
/// were asked for, the state at the sleep and the seconds slept.
fn cycle(
    begin: Ingester,
    provisioned: Result<(), ProvisionError>,
    refreshed: Result<DataStatus, RefreshError>,
    ingested: Result<(), ImportError>,
    rotated: Result<(), RotationError>,
) -> (Vec<Stage>, Ingester, u64) {
    let mut stages = vec![];
    let mut state = begin;
    for _ in 0..10 {
        stages.push(state.stage);
        let event = match state.stage {
            Stage::Reloading => CycleEvent::Reloaded,
            Stage::Provisioning => CycleEvent::Provisioned(provisioned),
            Stage::Refreshing => CycleEvent::Refreshed(refreshed),
            Stage::Ingesting => CycleEvent::Ingested(ingested),
            Stage::Rotating => CycleEvent::Rotated(rotated),
            Stage::Sleeping(outcome) => return (stages, state, outcome.delay_secs()),
        };
        state = ingester(state, event);
    }
    panic!("the cycle did not end");
}

#[test]
fn delays_in_seconds() {
    assert_eq!(DELAY_DB_ERROR, 300);
    assert_eq!(DELAY_NETWORK_ERROR, 3600);
    assert_eq!(DELAY_NO_WORK, 28800);
    assert_eq!(DELAY_UNKNOWN_ERROR, 3600);
}

#[test]
fn each_outcome_has_its_delay() {
    assert_eq!(CycleOutcome::ProvisionFailed.delay_secs(), 300);
    assert_eq!(CycleOutcome::RefreshFailed.delay_secs(), 3600);
    assert_eq!(CycleOutcome::NothingToIndex.delay_secs(), 28800);
    assert_eq!(CycleOutcome::IndexFailed.delay_secs(), 3600);
    assert_eq!(CycleOutcome::RotateFailed.delay_secs(), 3600);
    assert_eq!(CycleOutcome::Rotated.delay_secs(), 28800);
}

#[test]
fn database_delay_is_shortest_and_no_work_delay_longest() {
    let all = [
        CycleOutcome::ProvisionFailed,
        CycleOutcome::RefreshFailed,
        CycleOutcome::NothingToIndex,
        CycleOutcome::IndexFailed,
        CycleOutcome::RotateFailed,
        CycleOutcome::Rotated,
    ];
    for outcome in all {
        assert!(CycleOutcome::ProvisionFailed.delay_secs() <= outcome.delay_secs());
        assert!(outcome.delay_secs() <= CycleOutcome::NothingToIndex.delay_secs());
    }
}

#[test]
fn loop_begins_cold_with_a_reload() {
    let state = Ingester::start();
    assert_eq!(state, at(CycleMode::ColdStart, Stage::Reloading));
    assert!(state.force_refresh());
    assert!(!at(CycleMode::Steady, Stage::Refreshing).force_refresh());
}

#[test]
fn failed_provisioning_sleeps_the_database_delay() {
    let (stages, end, slept) = cycle(
        Ingester::start(),
        Err(ProvisionError::Connect),
        Ok(DataStatus::NeedsIndexing),
        Ok(()),
        Ok(()),
    );
    assert_eq!(
        stages,
        vec![Stage::Reloading, Stage::Provisioning, Stage::Sleeping(CycleOutcome::ProvisionFailed)]
    );
    assert_eq!(slept, 300);
    assert_eq!(end.mode, CycleMode::ColdStart);
    assert_eq!(ingester(end, CycleEvent::Slept), at(CycleMode::ColdStart, Stage::Reloading));
}

#[test]
fn failed_refresh_sleeps_the_network_delay() {
    let (stages, end, slept) = cycle(
        Ingester::start(),
        Ok(()),
        Err(RefreshError::ExtractFetch),
        Ok(()),
        Ok(()),
    );
    assert_eq!(
        stages,
        vec![
            Stage::Reloading,
            Stage::Provisioning,
            Stage::Refreshing,
            Stage::Sleeping(CycleOutcome::RefreshFailed),
        ]
    );
    assert_eq!(slept, 3600);
    assert_eq!(end.mode, CycleMode::ColdStart);
}

#[test]
fn nothing_to_index_sleeps_the_no_work_delay() {
    let (stages, end, slept) = cycle(
        at(CycleMode::Steady, Stage::Reloading),
        Ok(()),
        Ok(DataStatus::NothingToIndex),
        Ok(()),
        Ok(()),
    );
    assert_eq!(
        stages,
        vec![
            Stage::Reloading,
            Stage::Provisioning,
            Stage::Refreshing,
            Stage::Sleeping(CycleOutcome::NothingToIndex),
        ]
    );
    assert_eq!(slept, 28800);
    assert_eq!(end.mode, CycleMode::Steady);
}

#[test]
fn import_exit_status_one_fails_the_cycle_without_rotation() {
    let ingested = import_result(ToolExit::Code(1));
    assert!(ingested.is_err());
    let (stages, end, slept) =
        cycle(Ingester::start(), Ok(()), Ok(DataStatus::NeedsIndexing), ingested, Ok(()));
    assert_eq!(
        stages,
        vec![
            Stage::Reloading,
            Stage::Provisioning,
            Stage::Refreshing,
            Stage::Ingesting,
            Stage::Sleeping(CycleOutcome::IndexFailed),
        ]
    );
    assert!(!stages.contains(&Stage::Rotating));
    assert_eq!(slept, 3600);
    assert_eq!(end.mode, CycleMode::ColdStart);
}

#[test]
fn failed_rotation_sleeps_the_unknown_error_delay_and_stays_cold() {
    let (stages, end, slept) = cycle(
        Ingester::start(),
        Ok(()),
        Ok(DataStatus::NeedsIndexing),
        Ok(()),
        Err(RotationError::Connect),
    );
    assert_eq!(stages.last(), Some(&Stage::Sleeping(CycleOutcome::RotateFailed)));
    assert_eq!(slept, 3600);
    assert_eq!(end.mode, CycleMode::ColdStart);
}

#[test]
fn successful_rotation_ends_the_cold_start() {
    let (stages, end, slept) =
        cycle(Ingester::start(), Ok(()), Ok(DataStatus::NeedsIndexing), Ok(()), Ok(()));
    assert_eq!(
        stages,
        vec![
            Stage::Reloading,
            Stage::Provisioning,
            Stage::Refreshing,
            Stage::Ingesting,
            Stage::Rotating,
            Stage::Sleeping(CycleOutcome::Rotated),
        ]
    );
    assert_eq!(slept, 28800);
    assert_eq!(end.mode, CycleMode::Steady);
    let next = ingester(end, CycleEvent::Slept);
    assert_eq!(next, at(CycleMode::Steady, Stage::Reloading));
    assert!(!next.force_refresh());
}

#[test]
fn cold_start_lasts_until_the_first_rotation() {
    let mut state = Ingester::start();
    let failures: Vec<(Result<(), ProvisionError>, Result<DataStatus, RefreshError>, Result<(), ImportError>)> = vec![
        (Err(ProvisionError::Apply(0)), Ok(DataStatus::NeedsIndexing), Ok(())),
        (Ok(()), Err(RefreshError::ChecksumFetch), Ok(())),
        (Ok(()), Ok(DataStatus::NothingToIndex), Ok(())),
        (Ok(()), Ok(DataStatus::NeedsIndexing), Err(ImportError::NoStatus)),
    ];
    for (provisioned, refreshed, ingested) in failures {
        let (_, end, _) = cycle(state, provisioned, refreshed, ingested, Ok(()));
        state = ingester(end, CycleEvent::Slept);
        assert_eq!(state, Ingester::start());
        assert!(state.force_refresh());
    }
    let (_, end, _) = cycle(state, Ok(()), Ok(DataStatus::NeedsIndexing), Ok(()), Ok(()));
    state = ingester(end, CycleEvent::Slept);
    assert!(!state.force_refresh());
    let (_, end, _) = cycle(state, Ok(()), Err(RefreshError::ExtractFetch), Ok(()), Ok(()));
    assert_eq!(ingester(end, CycleEvent::Slept).mode, CycleMode::Steady);
}

#[test]
fn loop_ignores_an_event_it_did_not_ask_for() {
    let state = Ingester::start();
    assert_eq!(ingester(state, CycleEvent::Slept), state);
    assert_eq!(ingester(state, CycleEvent::Rotated(Ok(()))), state);
    let refreshing = at(CycleMode::ColdStart, Stage::Refreshing);
    assert_eq!(ingester(refreshing, CycleEvent::Ingested(Ok(()))), refreshing);
    let sleeping = at(CycleMode::ColdStart, Stage::Sleeping(CycleOutcome::IndexFailed));
    assert_eq!(ingester(sleeping, CycleEvent::Rotated(Ok(()))), sleeping);
}

fn refresh_with(force: bool, recorded: &str, published: &str) -> Result<DataStatus, RefreshError> {
    let mut state = Refresh::start("u", force);
    for _ in 0..10 {
        let event = match state.phase() {
            RefreshPhase::ReadingRecorded => RefreshEvent::Checksum(Some(recorded.to_string())),
            RefreshPhase::FetchingChecksum => RefreshEvent::Checksum(Some(published.to_string())),
            RefreshPhase::Finished(result) => return result,
            _ => RefreshEvent::Done(true),
        };
        state = refresh_pbf(state, event);
    }
    panic!("the refresh did not finish");
}

#[test]
fn identical_checksum_in_second_cycle_reports_nothing_to_index() {
    let first = Ingester::start();
    let refreshed = refresh_with(first.force_refresh(), "", "abc");
    assert_eq!(refreshed, Ok(DataStatus::NeedsIndexing));
    let (_, end, _) = cycle(first, Ok(()), refreshed, Ok(()), Ok(()));
    let second = ingester(end, CycleEvent::Slept);
    let refreshed = refresh_with(second.force_refresh(), "abc", "abc");
    assert_eq!(refreshed, Ok(DataStatus::NothingToIndex));
    let (stages, _, slept) = cycle(second, Ok(()), refreshed, Ok(()), Ok(()));
    assert_eq!(stages.last(), Some(&Stage::Sleeping(CycleOutcome::NothingToIndex)));
    assert!(!stages.contains(&Stage::Ingesting));
    assert_eq!(slept, 28800);
}
