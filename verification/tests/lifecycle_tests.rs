use worker_supervisor::errors::ErrorKind;
use worker_supervisor::lifecycle::{plan_teardown, Supervisor, TeardownAction};
use worker_supervisor::protocol::{
    handle_response_line, interpret_init_line, interpret_ping_response, ExitInfo, ProbeResult,
};

/// Drives a full successful load through the machine, the way the
/// embedding application does, with the given worker chatter.
fn load_ready_worker(sup: &mut Supervisor) -> u64 {
    if let Some(_old) = sup.begin_load() {
        // the evicted worker's process would be killed and awaited here
        sup.eviction_done();
    }
    assert!(sup.can_spawn());
    let gen = sup.note_spawned();
    assert!(interpret_init_line("{\"status\":\"ready\"}").is_ok());
    sup.handshake_ok();
    let pong = handle_response_line("{\"pong\":true,\"status\":\"ready\"}").unwrap();
    assert_eq!(interpret_ping_response(&pong).unwrap(), true);
    sup.probe_ok();
    gen
}

#[test]
fn fresh_supervisor_is_empty() {
    let sup = Supervisor::new();
    assert_eq!(sup.current_worker(), None);
}

#[test]
fn successful_load_stores_worker() {
    // Scenario: the worker announces readiness and answers the ping;
    // the load succeeds and the slot holds the worker.
    let mut sup = Supervisor::new();
    let gen = load_ready_worker(&mut sup);
    assert_eq!(sup.current_worker(), Some(gen));
}

#[test]
fn invoke_before_load_is_infrastructure_error() {
    let sup = Supervisor::new();
    let e = sup.invoke_gate().unwrap_err();
    assert_eq!(e.kind(), ErrorKind::NotStarted);
    assert_eq!(e.message(), "Python process not started");
}

#[test]
fn invoke_after_load_is_admitted() {
    let mut sup = Supervisor::new();
    let gen = load_ready_worker(&mut sup);
    assert_eq!(sup.invoke_gate().unwrap(), gen);
}

#[test]
fn failed_handshake_leaves_slot_empty() {
    // Scenario: the worker reports a failure instead of readiness; the
    // spawned process is torn down and no worker remains in the slot.
    let mut sup = Supervisor::new();
    assert_eq!(sup.begin_load(), None);
    let _gen = sup.note_spawned();
    let e = interpret_init_line("{\"status\":\"error\",\"summary\":\"bad config\"}").unwrap_err();
    assert!(e.message().contains("bad config"));
    sup.handshake_failed();
    sup.failure_teardown_done();
    assert_eq!(sup.current_worker(), None);
}

#[test]
fn failed_probe_leaves_slot_empty() {
    let mut sup = Supervisor::new();
    assert_eq!(sup.begin_load(), None);
    let _gen = sup.note_spawned();
    assert!(interpret_init_line("{\"status\":\"ready\"}").is_ok());
    sup.handshake_ok();
    let pong = handle_response_line("{\"pong\":false,\"status\":\"ready\"}").unwrap();
    assert!(interpret_ping_response(&pong).is_err());
    sup.probe_failed();
    sup.failure_teardown_done();
    assert_eq!(sup.current_worker(), None);
}

#[test]
fn launch_failure_before_spawn_leaves_slot_empty() {
    let mut sup = Supervisor::new();
    assert_eq!(sup.begin_load(), None);
    sup.launch_failed();
    assert_eq!(sup.current_worker(), None);
}

#[test]
fn replacement_evicts_old_worker_first() {
    // Loading project B while A's worker is ready: A is taken out of
    // the slot, and only after its teardown completes may B spawn.
    let mut sup = Supervisor::new();
    let gen_a = load_ready_worker(&mut sup);
    assert_eq!(sup.current_worker(), Some(gen_a));

    let evicted = sup.begin_load();
    assert_eq!(evicted, Some(gen_a));
    assert_eq!(sup.current_worker(), None);
    sup.eviction_done();
    let gen_b = sup.note_spawned();
    assert!(gen_b != gen_a);
    assert!(interpret_init_line("{\"status\":\"ready\"}").is_ok());
    sup.handshake_ok();
    let pong = handle_response_line("{\"pong\":true,\"status\":\"ready\"}").unwrap();
    assert_eq!(interpret_ping_response(&pong).unwrap(), true);
    sup.probe_ok();
    assert_eq!(sup.current_worker(), Some(gen_b));
}

#[test]
fn cleanup_on_empty_slot_is_noop() {
    let mut sup = Supervisor::new();
    assert_eq!(sup.cleanup_begin(), None);
    assert_eq!(sup.current_worker(), None);
}

#[test]
fn cleanup_tears_down_worker() {
    let mut sup = Supervisor::new();
    let gen = load_ready_worker(&mut sup);
    assert_eq!(sup.cleanup_begin(), Some(gen));
    sup.cleanup_done();
    assert_eq!(sup.current_worker(), None);
    // A second cleanup finds nothing and changes nothing.
    assert_eq!(sup.cleanup_begin(), None);
    assert_eq!(sup.current_worker(), None);
}

#[test]
fn teardown_of_exited_process_never_signals() {
    let exited = ProbeResult::Exited(ExitInfo { success: false, code: Some(1) });
    assert!(matches!(plan_teardown(&exited), TeardownAction::AlreadyExited));
    let ok_exit = ProbeResult::Exited(ExitInfo { success: true, code: Some(0) });
    assert!(matches!(plan_teardown(&ok_exit), TeardownAction::AlreadyExited));
}

#[test]
fn teardown_of_running_process_kills_then_waits() {
    assert!(matches!(plan_teardown(&ProbeResult::Running), TeardownAction::KillThenWait));
    let unknown = ProbeResult::ProbeFailed(String::from("no status"));
    assert!(matches!(plan_teardown(&unknown), TeardownAction::KillThenWait));
}
