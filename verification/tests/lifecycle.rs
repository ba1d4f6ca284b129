use sidecar_manager::manager::{ProcessHandle, SidecarManager};
use sidecar_manager::messages::{
    already_running_result, not_running_result, spawn_error_text, stop_result,
};

#[test]
fn start_twice_spawns_once() {
    let mut m = SidecarManager::new();
    let mut spawn_calls: u32 = 0;

    assert!(m.try_claim_start());
    spawn_calls += 1;
    let first = m.finish_start(Ok(ProcessHandle::new(41)));
    assert_eq!(
        first,
        Ok("Next.js server started on http://localhost:3001".to_string())
    );
    assert!(m.running());

    let second = if m.try_claim_start() {
        spawn_calls += 1;
        m.finish_start(Ok(ProcessHandle::new(42)))
    } else {
        already_running_result()
    };
    assert_eq!(second, Ok("Next.js server is already running".to_string()));
    assert_eq!(spawn_calls, 1);
    assert!(m.running());
}

#[test]
fn stop_without_start_fails() {
    let mut m = SidecarManager::new();
    assert!(m.take_handle().is_none());
    assert!(!m.running());
    assert!(!m.start_pending());
    assert_eq!(
        not_running_result(),
        Err("Next.js server is not running".to_string())
    );
}

#[test]
fn second_stop_fails_not_running() {
    let mut m = SidecarManager::new();
    assert!(m.try_claim_start());
    m.finish_start(Ok(ProcessHandle::new(5))).unwrap();

    let first = m.take_handle();
    assert_eq!(first.map(|h| h.id()), Some(5));
    assert_eq!(
        stop_result(Ok(())),
        Ok("Next.js server stopped".to_string())
    );

    let second = m.take_handle();
    assert!(second.is_none());
    assert_eq!(
        not_running_result(),
        Err("Next.js server is not running".to_string())
    );
}

#[test]
fn racing_starts_spawn_once() {
    let mut m = SidecarManager::new();
    let mut spawn_calls: u32 = 0;

    // Caller A and caller B both run their first critical section before
    // either spawn finishes; the lock serializes the two sections.
    let a_claimed = m.try_claim_start();
    let b_claimed = m.try_claim_start();
    assert!(a_claimed);
    assert!(!b_claimed);

    // Only the claim winner reaches the spawn facility.
    if a_claimed {
        spawn_calls += 1;
        m.finish_start(Ok(ProcessHandle::new(7))).unwrap();
    }
    let b_result = if b_claimed {
        spawn_calls += 1;
        m.finish_start(Ok(ProcessHandle::new(8)))
    } else {
        already_running_result()
    };
    assert_eq!(spawn_calls, 1);
    assert_eq!(b_result, Ok("Next.js server is already running".to_string()));
    assert!(m.running());
}

#[test]
fn failed_spawn_leaves_slot_empty() {
    let mut m = SidecarManager::new();
    assert!(m.try_claim_start());
    let r = m.finish_start(Err(spawn_error_text("no such file")));
    assert_eq!(
        r,
        Err("Failed to spawn sidecar: no such file".to_string())
    );
    assert!(!m.running());
    assert!(!m.start_pending());

    // The next start attempts to spawn again instead of reporting
    // already running.
    assert!(m.try_claim_start());
}

#[test]
fn failed_kill_reports_cause_and_slot_stays_empty() {
    let mut m = SidecarManager::new();
    assert!(m.try_claim_start());
    m.finish_start(Ok(ProcessHandle::new(9))).unwrap();

    let taken = m.take_handle();
    assert!(taken.is_some());
    let r = stop_result(Err("permission denied".to_string()));
    assert_eq!(
        r,
        Err("Failed to kill sidecar: permission denied".to_string())
    );
    assert!(!m.running());
}

#[test]
fn session_reports_each_step() {
    let mut m = SidecarManager::new();

    assert!(m.try_claim_start());
    let started = m.finish_start(Ok(ProcessHandle::new(11))).unwrap();
    assert!(started.contains("localhost:3001"));

    assert!(!m.try_claim_start());
    let again = already_running_result().unwrap();
    assert!(again.contains("already running"));

    assert!(m.take_handle().is_some());
    let stopped = stop_result(Ok(())).unwrap();
    assert!(stopped.contains("stopped"));

    assert!(m.take_handle().is_none());
    let failed = not_running_result().unwrap_err();
    assert!(failed.contains("not running"));
}
