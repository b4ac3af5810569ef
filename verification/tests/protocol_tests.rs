use worker_supervisor::errors::ErrorKind;
use worker_supervisor::protocol::{
    classify_handshake_eof, classify_liveness, classify_response_eof, derive_health,
    encode_request, handle_response_line, handshake_read_error, health_wrap,
    interpret_init_line, interpret_ping_response, ping_request_line, response_read_error,
    spawn_error, write_error, ExitInfo, HealthState, ProbeResult,
};

fn parse(s: &str) -> serde_json::Value {
    serde_json::from_str(s).unwrap()
}

#[test]
fn init_ready_line_accepted() {
    let r = interpret_init_line("{\"status\":\"ready\"}");
    assert!(r.is_ok());
}

#[test]
fn init_ready_line_with_trailing_newline_accepted() {
    let r = interpret_init_line("{\"status\": \"ready\"}\n");
    assert!(r.is_ok());
}

#[test]
fn init_error_with_summary_reported() {
    // A worker that announces {"status":"error","summary":"bad config"}
    // fails the load with a message carrying the summary.
    let r = interpret_init_line("{\"status\":\"error\",\"summary\":\"bad config\"}");
    let e = r.unwrap_err();
    assert_eq!(e.kind(), ErrorKind::Handshake);
    assert_eq!(
        e.message(),
        "Python reported initialization failure: bad config"
    );
}

#[test]
fn init_error_prefers_summary_over_error() {
    let r = interpret_init_line(
        "{\"status\":\"error\",\"error\":\"raw\",\"summary\":\"summarized\"}",
    );
    let e = r.unwrap_err();
    assert_eq!(
        e.message(),
        "Python reported initialization failure: summarized"
    );
}

#[test]
fn init_error_falls_back_to_error_field() {
    let r = interpret_init_line("{\"status\":\"failed\",\"error\":\"no module\"}");
    let e = r.unwrap_err();
    assert_eq!(
        e.message(),
        "Python reported initialization failure: no module"
    );
}

#[test]
fn init_error_without_detail_uses_default() {
    let r = interpret_init_line("{\"status\":\"failed\"}");
    let e = r.unwrap_err();
    assert_eq!(
        e.message(),
        "Python reported initialization failure: Model initialization error"
    );
}

#[test]
fn init_without_status_rejected() {
    let r = interpret_init_line("{\"pong\":true}");
    let e = r.unwrap_err();
    assert_eq!(e.kind(), ErrorKind::Handshake);
    assert_eq!(
        e.message(),
        "Invalid initialization message from Python (missing 'status')"
    );
}

#[test]
fn init_non_string_status_rejected() {
    let r = interpret_init_line("{\"status\":1}");
    let e = r.unwrap_err();
    assert_eq!(
        e.message(),
        "Invalid initialization message from Python (missing 'status')"
    );
}

#[test]
fn init_malformed_line_surfaces_raw_text() {
    let detail = serde_json::from_str::<serde_json::Value>("not json at all")
        .unwrap_err()
        .to_string();
    let r = interpret_init_line("not json at all\n");
    let e = r.unwrap_err();
    assert_eq!(e.kind(), ErrorKind::Handshake);
    assert_eq!(
        e.message(),
        &format!(
            "Failed to parse Python init JSON: {}. Raw: 'not json at all'",
            detail
        )
    );
}

#[test]
fn response_passes_through_verbatim() {
    // An invoke that sends {"x":1} and gets {"y":2} hands {"y":2} back
    // unchanged.
    let r = handle_response_line("{\"y\":2}").unwrap();
    assert_eq!(r, parse("{\"y\":2}"));
}

#[test]
fn response_detailed_error_collapsed_to_summary() {
    let r = handle_response_line(
        "{\"error\":\"boom\",\"error_type\":\"ValueError\",\"summary\":\"boom occurred\"}",
    )
    .unwrap();
    assert_eq!(r, parse("{\"error\":\"boom occurred\"}"));
}

#[test]
fn response_detailed_error_without_summary_uses_error() {
    let r = handle_response_line("{\"error\":\"boom\",\"error_type\":\"ValueError\"}").unwrap();
    assert_eq!(r, parse("{\"error\":\"boom\"}"));
}

#[test]
fn response_simple_error_passes_through() {
    // One-field error responses are not the detailed format and are
    // returned unchanged.
    let r = handle_response_line("{\"error\":\"plain\"}").unwrap();
    assert_eq!(r, parse("{\"error\":\"plain\"}"));
}

#[test]
fn response_malformed_line_is_protocol_error() {
    let detail = serde_json::from_str::<serde_json::Value>("{{nope")
        .unwrap_err()
        .to_string();
    let e = handle_response_line("{{nope").unwrap_err();
    assert_eq!(e.kind(), ErrorKind::Protocol);
    assert_eq!(
        e.message(),
        &format!("Parse failed: {}. Raw response: '{{{{nope'", detail)
    );
}

#[test]
fn response_with_number_field_passes_through_verbatim() {
    // A plain response with non-string, non-boolean content is the
    // parsed value itself, untouched.
    let line = "{\"y\":2,\"xs\":[1,2,3],\"nested\":{\"a\":null}}";
    let r = handle_response_line(line).unwrap();
    assert_eq!(r, parse(line));
}

#[test]
fn ping_ready_response_accepted() {
    let v = parse("{\"pong\":true,\"status\":\"ready\"}");
    assert_eq!(interpret_ping_response(&v).unwrap(), true);
}

#[test]
fn ping_not_ready_uses_embedded_error() {
    let v = parse("{\"pong\":true,\"status\":\"loading\",\"error\":\"still warming\"}");
    let e = interpret_ping_response(&v).unwrap_err();
    assert_eq!(e.kind(), ErrorKind::Handshake);
    assert_eq!(e.message(), "Model health check failed: still warming");
}

#[test]
fn ping_not_ready_without_error_uses_default() {
    let v = parse("{\"pong\":false,\"status\":\"ready\"}");
    let e = interpret_ping_response(&v).unwrap_err();
    assert_eq!(e.message(), "Model health check failed: Model not ready");
}

#[test]
fn ping_without_pong_is_invalid_format() {
    let v = parse("{\"status\":\"ready\"}");
    let e = interpret_ping_response(&v).unwrap_err();
    assert_eq!(e.kind(), ErrorKind::Protocol);
    assert_eq!(e.message(), "Invalid ping response format");
}

#[test]
fn ping_request_is_fixed_line() {
    assert_eq!(ping_request_line(), "{\"ping\": true}");
}

#[test]
fn liveness_running_is_ok() {
    assert!(classify_liveness(&ProbeResult::Running, 7).is_ok());
}

#[test]
fn liveness_exit_code_reported() {
    let probe = ProbeResult::Exited(ExitInfo { success: false, code: Some(1) });
    let e = classify_liveness(&probe, 42).unwrap_err();
    assert_eq!(e.kind(), ErrorKind::ProcessDead);
    assert_eq!(
        e.message(),
        "Python process (PID: 42) has exited. Reason: Process failed with exit code: 1"
    );
}

#[test]
fn liveness_success_exit_reported() {
    let probe = ProbeResult::Exited(ExitInfo { success: true, code: Some(0) });
    let e = classify_liveness(&probe, 5).unwrap_err();
    assert_eq!(
        e.message(),
        "Python process (PID: 5) has exited. Reason: Process completed successfully (exit code: 0)"
    );
}

#[test]
fn liveness_signal_exit_reported() {
    let probe = ProbeResult::Exited(ExitInfo { success: false, code: None });
    let e = classify_liveness(&probe, 5).unwrap_err();
    assert_eq!(
        e.message(),
        "Python process (PID: 5) has exited. Reason: Process was terminated by signal"
    );
}

#[test]
fn liveness_probe_failure_reported() {
    let probe = ProbeResult::ProbeFailed(String::from("permission denied"));
    let e = classify_liveness(&probe, 9).unwrap_err();
    assert_eq!(e.kind(), ErrorKind::ProcessDead);
    assert_eq!(
        e.message(),
        "Failed to check Python process (PID: 9) status: permission denied. \
         This might indicate the process crashed or system resource issues."
    );
}

#[test]
fn handshake_eof_after_exit_includes_stderr() {
    // A worker that exits with no stdout: the load fails with an
    // EOF-class message carrying whatever diagnostic text was drained.
    let probe = ProbeResult::Exited(ExitInfo { success: false, code: Some(1) });
    let e = classify_handshake_eof(&probe, "Traceback: boom\n");
    assert_eq!(e.kind(), ErrorKind::Handshake);
    assert_eq!(
        e.message(),
        "Python initialization failed. Stderr: Traceback: boom"
    );
}

#[test]
fn handshake_eof_after_exit_with_blank_stderr() {
    let probe = ProbeResult::Exited(ExitInfo { success: false, code: Some(1) });
    let e = classify_handshake_eof(&probe, "  \n");
    assert_eq!(e.message(), "Python process exited during initialization (EOF)");
}

#[test]
fn handshake_eof_while_running_is_distinct() {
    let e = classify_handshake_eof(&ProbeResult::Running, "ignored");
    assert_eq!(
        e.message(),
        "Python stdout closed (EOF) while process still running"
    );
}

#[test]
fn handshake_eof_probe_failure_reported() {
    let e = classify_handshake_eof(&ProbeResult::ProbeFailed(String::from("gone")), "");
    assert_eq!(e.message(), "Failed checking Python status after EOF: gone");
}

#[test]
fn response_eof_after_exit_includes_stderr() {
    let probe = ProbeResult::Exited(ExitInfo { success: false, code: Some(1) });
    let e = classify_response_eof(&probe, " died hard \n");
    assert_eq!(e.kind(), ErrorKind::ProcessDead);
    assert_eq!(
        e.message(),
        "Python process ended unexpectedly. Stderr: died hard"
    );
}

#[test]
fn response_eof_after_exit_with_blank_stderr() {
    let probe = ProbeResult::Exited(ExitInfo { success: true, code: Some(0) });
    let e = classify_response_eof(&probe, "");
    assert_eq!(e.message(), "Python process ended unexpectedly (EOF)");
}

#[test]
fn response_eof_while_running_is_protocol_error() {
    let e = classify_response_eof(&ProbeResult::Running, "");
    assert_eq!(e.kind(), ErrorKind::Protocol);
    assert_eq!(
        e.message(),
        "Python stdout closed (EOF) while process still running"
    );
}

#[test]
fn read_write_spawn_errors_carry_reason() {
    assert_eq!(
        handshake_read_error("broken pipe").message(),
        "Failed to read Python initialization message: broken pipe"
    );
    assert_eq!(response_read_error("io oops").message(), "Read failed: io oops");
    let w = write_error("pipe closed");
    assert_eq!(w.kind(), ErrorKind::ProcessDead);
    assert_eq!(w.message(), "Write failed: pipe closed");
    let s = spawn_error("no such file");
    assert_eq!(s.kind(), ErrorKind::Launch);
    assert_eq!(s.message(), "Failed to start Python: no such file");
}

#[test]
fn health_is_derived_from_probe_and_ping() {
    let info = ExitInfo { success: false, code: Some(3) };
    assert_eq!(
        derive_health(&ProbeResult::Exited(info), Some(true)),
        HealthState::Exited(info)
    );
    assert_eq!(derive_health(&ProbeResult::Running, None), HealthState::AliveUnprobed);
    assert_eq!(derive_health(&ProbeResult::Running, Some(true)), HealthState::AliveReady);
    assert_eq!(derive_health(&ProbeResult::Running, Some(false)), HealthState::AliveNotReady);
}

#[test]
fn encode_request_round_trips() {
    let v = parse("{\"x\":1,\"name\":\"demo\"}");
    let line = encode_request(&v).unwrap();
    assert!(!line.contains('\n'));
    assert_eq!(serde_json::from_str::<serde_json::Value>(&line).unwrap(), v);
    assert_eq!(line, serde_json::to_string(&v).unwrap());
}

#[test]
fn health_wrap_prefixes_message_keeps_kind() {
    let e = response_read_error("x");
    let w = health_wrap(e);
    assert_eq!(w.kind(), ErrorKind::Protocol);
    assert_eq!(w.message(), "Model health check failed: Read failed: x");
}
