use ghostbloods::engine::{
    is_engine_running, select_project_root, start_engine_after_poll, start_engine_after_probe,
    start_engine_after_spawn, start_engine_begin, stop_engine_after_grace, stop_engine_begin, EngineTracker,
    StartAction, StartFailure, StopAction, ENGINE_PORT, READY_POLL_INTERVAL_MS, READY_POLL_LIMIT,
};

#[test]
fn start_from_nothing_spawns() {
    let mut engine = EngineTracker::new();
    assert!(!is_engine_running(&engine));
    assert_eq!(start_engine_begin(&engine), StartAction::Spawn);
    assert_eq!(start_engine_after_spawn(&mut engine, Some(Some(4242))), StartAction::WaitThenProbe { attempt: 1 });
    assert_eq!(engine.pid, Some(4242));
    assert!(is_engine_running(&engine));
}

#[test]
fn spawn_without_id_records_zero() {
    let mut engine = EngineTracker::new();
    start_engine_after_spawn(&mut engine, Some(None));
    assert_eq!(engine.pid, Some(0));
}

#[test]
fn spawn_failure_fails_start() {
    let mut engine = EngineTracker::new();
    assert_eq!(start_engine_after_spawn(&mut engine, None), StartAction::Fail(StartFailure::SpawnFailed));
    assert_eq!(engine.pid, None);
}

#[test]
fn recorded_engine_is_probed_first() {
    let engine = EngineTracker { pid: Some(7) };
    assert_eq!(start_engine_begin(&engine), StartAction::ProbeExisting);
    assert_eq!(start_engine_after_probe(true), StartAction::Ready);
    assert_eq!(start_engine_after_probe(false), StartAction::Spawn);
}

#[test]
fn readiness_gives_up_after_fifteen_seconds() {
    assert_eq!(u64::from(READY_POLL_LIMIT) * READY_POLL_INTERVAL_MS, 15_000);
    let mut attempt = 1;
    let mut probes = 0;
    loop {
        probes += 1;
        match start_engine_after_poll(attempt, false) {
            StartAction::WaitThenProbe { attempt: next } => attempt = next,
            StartAction::Fail(StartFailure::NotReady) => break,
            other => panic!("unexpected {:?}", other),
        }
    }
    assert_eq!(probes, 30);
    assert_eq!(start_engine_after_poll(12, true), StartAction::Ready);
    assert_eq!(start_engine_after_poll(30, true), StartAction::Ready);
}

#[test]
fn stop_forgets_engine_and_escalates() {
    let mut engine = EngineTracker { pid: Some(99) };
    assert_eq!(stop_engine_begin(&mut engine), StopAction::Terminate { pid: 99 });
    assert!(!is_engine_running(&engine));
    assert_eq!(stop_engine_after_grace(99, true), StopAction::ForceKill { pid: 99 });
    assert_eq!(stop_engine_after_grace(99, false), StopAction::Done);
    assert_eq!(stop_engine_begin(&mut engine), StopAction::Done);
}

#[test]
fn engine_exit_is_recorded() {
    let mut engine = EngineTracker { pid: Some(3) };
    engine.mark_exited();
    assert!(!is_engine_running(&engine));
    assert_eq!(ENGINE_PORT, 3117);
}

#[test]
fn project_root_is_first_with_entry_script() {
    assert_eq!(select_project_root(&vec![false, true, true]), Some(1));
    assert_eq!(select_project_root(&vec![true]), Some(0));
    assert_eq!(select_project_root(&vec![false, false]), None);
    assert_eq!(select_project_root(&vec![]), None);
}
