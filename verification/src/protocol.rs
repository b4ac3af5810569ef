//! The decisions of the wire protocol, verified end to end.
//!
//! The embedding application performs the blocking reads and writes and
//! the process probes; every outcome it observes is handed to one of the
//! functions here, which decide — with an exact contract — what the
//! outcome means: handshake accepted or failed, worker alive or dead,
//! response passed through or collapsed to a single error object.

use vstd::prelude::*;
use vstd::string::StringExecFns;

use crate::errors::{ErrorKind, SupervisorError};
use crate::jsonio::{
    get_bool_field, get_str_field, has_field, json_err_text, json_shape, json_text_of,
    json_text_shape, json_value_of, make_error_value, parse_json, shape_bool, shape_has,
    shape_str, JsonField, JsonShape,
};
use crate::strutil::{all_ws, fmt_i64, fmt_u64, is_blank, spec_dec, spec_dec_signed, spec_trim,
    trim_ws};

verus! {

/// What a non-blocking exit-status probe of the worker process reported.
pub enum ProbeResult {
    /// The process has not exited.
    Running,
    /// The process has exited, with the recorded status.
    Exited(ExitInfo),
    /// The probe itself failed, with the reported reason.
    ProbeFailed(String),
}

/// The recorded exit status of a worker process: success, a failure
/// code, or (when `code` is `None`) termination by a signal.
#[derive(Clone, Copy, Debug, PartialEq, Eq, Structural)]
pub struct ExitInfo {
    pub success: bool,
    pub code: Option<i64>,
}

/// The text describing a recorded exit status.
pub open spec fn exit_reason_text(info: ExitInfo) -> Seq<char> {
    if info.success {
        "Process completed successfully (exit code: 0)"@
    } else if info.code is Some {
        "Process failed with exit code: "@ + spec_dec_signed(info.code.unwrap() as int)
    } else {
        "Process was terminated by signal"@
    }
}

fn describe_exit(info: &ExitInfo) -> (r: String)
    ensures
        r@ == exit_reason_text(*info),
{
    if info.success {
        let s: &str = "Process completed successfully (exit code: 0)";
        s.to_owned()
    } else {
        match info.code {
            Some(c) => {
                let head: &str = "Process failed with exit code: ";
                let r = head.to_owned().concat(fmt_i64(c).as_str());
                proof {
                    assert(r@ =~= exit_reason_text(*info));
                }
                r
            },
            None => {
                let s: &str = "Process was terminated by signal";
                s.to_owned()
            },
        }
    }
}

/// The exit-status check made before any exchange with the worker: a
/// worker that has already exited fails the call immediately, without
/// any I/O being attempted.
pub fn classify_liveness(probe: &ProbeResult, pid: u64) -> (r: Result<(), SupervisorError>)
    ensures
        (match probe {
            ProbeResult::Running => r is Ok,
            ProbeResult::Exited(info) => r matches Err(e) && e.kind == ErrorKind::ProcessDead
                && e.message@ == "Python process (PID: "@ + spec_dec(pid as int)
                + ") has exited. Reason: "@ + exit_reason_text(*info),
            ProbeResult::ProbeFailed(why) => r matches Err(e) && e.kind
                == ErrorKind::ProcessDead && e.message@ == "Failed to check Python process (PID: "@
                + spec_dec(pid as int) + ") status: "@ + why@
                + ". This might indicate the process crashed or system resource issues."@,
        }),
{
    match probe {
        ProbeResult::Running => Ok(()),
        ProbeResult::Exited(info) => {
            let head: &str = "Python process (PID: ";
            let mut m = head.to_owned().concat(fmt_u64(pid).as_str());
            m.append(") has exited. Reason: ");
            m.append(describe_exit(info).as_str());
            proof {
                assert(m@ =~= "Python process (PID: "@ + spec_dec(pid as int)
                    + ") has exited. Reason: "@ + exit_reason_text(*info));
            }
            Err(SupervisorError::new(ErrorKind::ProcessDead, m))
        },
        ProbeResult::ProbeFailed(why) => {
            let head: &str = "Failed to check Python process (PID: ";
            let mut m = head.to_owned().concat(fmt_u64(pid).as_str());
            m.append(") status: ");
            m.append(why.as_str());
            m.append(". This might indicate the process crashed or system resource issues.");
            proof {
                assert(m@ =~= "Failed to check Python process (PID: "@ + spec_dec(pid as int)
                    + ") status: "@ + why@
                    + ". This might indicate the process crashed or system resource issues."@);
            }
            Err(SupervisorError::new(ErrorKind::ProcessDead, m))
        },
    }
}

/// The failure reported when the worker's output reached end-of-file
/// while a response line was awaited.  Diagnostic text is consulted only
/// when the process is confirmed exited; a close with the process still
/// alive is a distinct protocol violation.
pub fn classify_response_eof(probe: &ProbeResult, stderr_text: &str) -> (r: SupervisorError)
    ensures
        (match probe {
            ProbeResult::Exited(_) => r.kind == ErrorKind::ProcessDead && (if all_ws(
                stderr_text@,
            ) {
                r.message@ == "Python process ended unexpectedly (EOF)"@
            } else {
                r.message@ == "Python process ended unexpectedly. Stderr: "@ + spec_trim(
                    stderr_text@,
                )
            }),
            ProbeResult::Running => r.kind == ErrorKind::Protocol && r.message@
                == "Python stdout closed (EOF) while process still running"@,
            ProbeResult::ProbeFailed(why) => r.kind == ErrorKind::ProcessDead && r.message@
                == "Failed to check Python process status after EOF: "@ + why@,
        }),
{
    match probe {
        ProbeResult::Exited(_) => {
            if is_blank(stderr_text) {
                let s: &str = "Python process ended unexpectedly (EOF)";
                SupervisorError::new(ErrorKind::ProcessDead, s.to_owned())
            } else {
                let head: &str = "Python process ended unexpectedly. Stderr: ";
                let m = head.to_owned().concat(trim_ws(stderr_text).as_str());
                SupervisorError::new(ErrorKind::ProcessDead, m)
            }
        },
        ProbeResult::Running => {
            let s: &str = "Python stdout closed (EOF) while process still running";
            SupervisorError::new(ErrorKind::Protocol, s.to_owned())
        },
        ProbeResult::ProbeFailed(why) => {
            let head: &str = "Failed to check Python process status after EOF: ";
            let m = head.to_owned().concat(why.as_str());
            SupervisorError::new(ErrorKind::ProcessDead, m)
        },
    }
}

/// The failure reported when the worker's output reached end-of-file
/// before the initial readiness announcement.  The same three outcomes
/// as `classify_response_eof`, reported as handshake failures with their
/// own texts.
pub fn classify_handshake_eof(probe: &ProbeResult, stderr_text: &str) -> (r: SupervisorError)
    ensures
        r.kind == ErrorKind::Handshake,
        (match probe {
            ProbeResult::Exited(_) => if all_ws(stderr_text@) {
                r.message@ == "Python process exited during initialization (EOF)"@
            } else {
                r.message@ == "Python initialization failed. Stderr: "@ + spec_trim(stderr_text@)
            },
            ProbeResult::Running => r.message@
                == "Python stdout closed (EOF) while process still running"@,
            ProbeResult::ProbeFailed(why) => r.message@
                == "Failed checking Python status after EOF: "@ + why@,
        }),
{
    match probe {
        ProbeResult::Exited(_) => {
            if is_blank(stderr_text) {
                let s: &str = "Python process exited during initialization (EOF)";
                SupervisorError::new(ErrorKind::Handshake, s.to_owned())
            } else {
                let head: &str = "Python initialization failed. Stderr: ";
                let m = head.to_owned().concat(trim_ws(stderr_text).as_str());
                SupervisorError::new(ErrorKind::Handshake, m)
            }
        },
        ProbeResult::Running => {
            let s: &str = "Python stdout closed (EOF) while process still running";
            SupervisorError::new(ErrorKind::Handshake, s.to_owned())
        },
        ProbeResult::ProbeFailed(why) => {
            let head: &str = "Failed checking Python status after EOF: ";
            let m = head.to_owned().concat(why.as_str());
            SupervisorError::new(ErrorKind::Handshake, m)
        },
    }
}

/// The failure reported when reading the initial announcement failed
/// with an I/O error (not end-of-file).
pub fn handshake_read_error(why: &str) -> (r: SupervisorError)
    ensures
        r.kind == ErrorKind::Handshake,
        r.message@ == "Failed to read Python initialization message: "@ + why@,
{
    let head: &str = "Failed to read Python initialization message: ";
    SupervisorError::new(ErrorKind::Handshake, head.to_owned().concat(why))
}

/// The failure reported when reading a response line failed with an I/O
/// error (not end-of-file).
pub fn response_read_error(why: &str) -> (r: SupervisorError)
    ensures
        r.kind == ErrorKind::Protocol,
        r.message@ == "Read failed: "@ + why@,
{
    let head: &str = "Read failed: ";
    SupervisorError::new(ErrorKind::Protocol, head.to_owned().concat(why))
}

/// The failure reported when writing a request line failed.  The worker
/// is presumed unusable after it.
pub fn write_error(why: &str) -> (r: SupervisorError)
    ensures
        r.kind == ErrorKind::ProcessDead,
        r.message@ == "Write failed: "@ + why@,
{
    let head: &str = "Write failed: ";
    SupervisorError::new(ErrorKind::ProcessDead, head.to_owned().concat(why))
}

/// The failure reported when process creation itself failed.
pub fn spawn_error(why: &str) -> (r: SupervisorError)
    ensures
        r.kind == ErrorKind::Launch,
        r.message@ == "Failed to start Python: "@ + why@,
{
    let head: &str = "Failed to start Python: ";
    SupervisorError::new(ErrorKind::Launch, head.to_owned().concat(why))
}

/// The failure reported when the bootstrap script could not be written
/// into the project directory before the launch.
pub fn bootstrap_write_error(why: &str) -> (r: SupervisorError)
    ensures
        r.kind == ErrorKind::Launch,
        r.message@ == "Failed to create/update base handler file: "@ + why@,
{
    let head: &str = "Failed to create/update base handler file: ";
    SupervisorError::new(ErrorKind::Launch, head.to_owned().concat(why))
}

/// The failure detail of a non-ready init message: its `summary` field
/// when that is a string, else its `error` field, else a fixed text.
pub open spec fn init_failure_detail(sh: JsonShape) -> Seq<char> {
    match shape_str(sh, "summary"@) {
        Some(s) => s,
        None => match shape_str(sh, "error"@) {
            Some(e) => e,
            None => "Model initialization error"@,
        },
    }
}

/// Interprets the worker's first output line: the one-shot readiness
/// handshake.  The line is stripped of surrounding whitespace; it must
/// parse as JSON, hold a string `status` field, and announce `"ready"`.
/// Anything else fails the handshake with a message that surfaces the
/// parser's reason and the raw line, the missing field, or the
/// reported failure detail.
pub fn interpret_init_line(line: &str) -> (r: Result<(), SupervisorError>)
    ensures
        ({
            let t = spec_trim(line@);
            match json_text_shape(t) {
                None => r matches Err(e) && e.kind == ErrorKind::Handshake && e.message@
                    == "Failed to parse Python init JSON: "@ + json_err_text(t) + ". Raw: '"@ + t
                    + "'"@,
                Some(sh) => match shape_str(sh, "status"@) {
                    None => r matches Err(e) && e.kind == ErrorKind::Handshake && e.message@
                        == "Invalid initialization message from Python (missing 'status')"@,
                    Some(st) => if st == "ready"@ {
                        r is Ok
                    } else {
                        r matches Err(e) && e.kind == ErrorKind::Handshake && e.message@
                            == "Python reported initialization failure: "@ + init_failure_detail(
                            sh,
                        )
                    },
                },
            }
        }),
{
    let t = trim_ws(line);
    match parse_json(t.as_str()) {
        Err(d) => {
            let head: &str = "Failed to parse Python init JSON: ";
            let mut m = head.to_owned().concat(d.as_str());
            m.append(". Raw: '");
            m.append(t.as_str());
            m.append("'");
            proof {
                assert(m@ =~= "Failed to parse Python init JSON: "@ + json_err_text(
                    spec_trim(line@),
                ) + ". Raw: '"@ + spec_trim(line@) + "'"@);
            }
            Err(SupervisorError::new(ErrorKind::Handshake, m))
        },
        Ok(v) => {
            match get_str_field(&v, "status") {
                None => {
                    let s: &str = "Invalid initialization message from Python (missing 'status')";
                    Err(SupervisorError::new(ErrorKind::Handshake, s.to_owned()))
                },
                Some(st) => {
                    let ready_lit: &str = "ready";
                    let ready: String = ready_lit.to_owned();
                    if st == ready {
                        Ok(())
                    } else {
                        let detail = match get_str_field(&v, "summary") {
                            Some(s) => s,
                            None => match get_str_field(&v, "error") {
                                Some(e) => e,
                                None => {
                                    let d: &str = "Model initialization error";
                                    d.to_owned()
                                },
                            },
                        };
                        let head: &str = "Python reported initialization failure: ";
                        let m = head.to_owned().concat(detail.as_str());
                        Err(SupervisorError::new(ErrorKind::Handshake, m))
                    }
                },
            }
        },
    }
}

/// Whether a response carries the detailed error format: an object with
/// both an `error` and an `error_type` field.
pub open spec fn response_detailed(sh: JsonShape) -> bool {
    shape_has(sh, "error"@) && shape_has(sh, "error_type"@)
}

/// The single message a detailed error response is collapsed to: its
/// `summary` field when that is a string, else its `error` field, else a
/// fixed text.
pub open spec fn collapse_detail(sh: JsonShape) -> Seq<char> {
    match shape_str(sh, "summary"@) {
        Some(s) => s,
        None => match shape_str(sh, "error"@) {
            Some(e) => e,
            None => "Unknown error"@,
        },
    }
}

/// Interprets one response line of the worker.  The line must parse as
/// JSON; a detailed error response — an object holding both `error` and
/// `error_type` — is collapsed to the one-field object
/// `{"error": <summary-or-error-text>}`; every other response is the
/// parsed value itself, passed through verbatim.
pub fn handle_response_line(line: &str) -> (r: Result<serde_json::Value, SupervisorError>)
    ensures
        ({
            let t = spec_trim(line@);
            match json_text_shape(t) {
                None => r matches Err(e) && e.kind == ErrorKind::Protocol && e.message@
                    == "Parse failed: "@ + json_err_text(t) + ". Raw response: '"@ + t + "'"@,
                Some(sh) => r matches Ok(v) && (if response_detailed(sh) {
                    json_shape(v) == JsonShape::Object(
                        Map::<Seq<char>, JsonField>::empty().insert(
                            "error"@,
                            JsonField::Str(collapse_detail(sh)),
                        ),
                    )
                } else {
                    v == json_value_of(t) && json_shape(v) == sh
                }),
            }
        }),
{
    let t = trim_ws(line);
    match parse_json(t.as_str()) {
        Err(d) => {
            let head: &str = "Parse failed: ";
            let mut m = head.to_owned().concat(d.as_str());
            m.append(". Raw response: '");
            m.append(t.as_str());
            m.append("'");
            proof {
                assert(m@ =~= "Parse failed: "@ + json_err_text(spec_trim(line@))
                    + ". Raw response: '"@ + spec_trim(line@) + "'"@);
            }
            Err(SupervisorError::new(ErrorKind::Protocol, m))
        },
        Ok(v) => {
            if has_field(&v, "error") && has_field(&v, "error_type") {
                let detail = match get_str_field(&v, "summary") {
                    Some(s) => s,
                    None => match get_str_field(&v, "error") {
                        Some(e) => e,
                        None => {
                            let d: &str = "Unknown error";
                            d.to_owned()
                        },
                    },
                };
                Ok(make_error_value(detail.as_str()))
            } else {
                Ok(v)
            }
        },
    }
}

/// The not-ready detail of a ping response: its `error` field when that
/// is a string, else a fixed text.
pub open spec fn ping_error_detail(sh: JsonShape) -> Seq<char> {
    match shape_str(sh, "error"@) {
        Some(e) => e,
        None => "Model not ready"@,
    }
}

/// Interprets a (already enrichment-processed) ping response value.  The
/// worker counts as ready exactly when the response holds `pong` as the
/// boolean `true` and `status` as the string `"ready"`; a response
/// without a boolean `pong` is a protocol violation; anything else is a
/// reported not-ready condition carrying the embedded error text.
pub fn interpret_ping_response(v: &serde_json::Value) -> (r: Result<bool, SupervisorError>)
    ensures
        ({
            let sh = json_shape(*v);
            match shape_bool(sh, "pong"@) {
                None => r matches Err(e) && e.kind == ErrorKind::Protocol && e.message@
                    == "Invalid ping response format"@,
                Some(p) => if p && shape_str(sh, "status"@) == Some("ready"@) {
                    r matches Ok(b) && b
                } else {
                    r matches Err(e) && e.kind == ErrorKind::Handshake && e.message@
                        == "Model health check failed: "@ + ping_error_detail(sh)
                },
            }
        }),
{
    match get_bool_field(v, "pong") {
        None => {
            let s: &str = "Invalid ping response format";
            Err(SupervisorError::new(ErrorKind::Protocol, s.to_owned()))
        },
        Some(p) => {
            let ready = match get_str_field(v, "status") {
                Some(st) => {
                    let ready_lit: &str = "ready";
                    let ready_str: String = ready_lit.to_owned();
                    st == ready_str
                },
                None => false,
            };
            if p && ready {
                Ok(true)
            } else {
                let detail = match get_str_field(v, "error") {
                    Some(e) => e,
                    None => {
                        let d: &str = "Model not ready";
                        d.to_owned()
                    },
                };
                let head: &str = "Model health check failed: ";
                let m = head.to_owned().concat(detail.as_str());
                Err(SupervisorError::new(ErrorKind::Handshake, m))
            }
        },
    }
}

/// The derived health of a worker.  Never stored: computed on demand
/// from the exit-status probe and, when the process is alive, from the
/// outcome of a ping exchange.
#[derive(Clone, Copy, Debug, PartialEq, Eq, Structural)]
pub enum HealthState {
    /// The process is alive and no ping has been exchanged yet.
    AliveUnprobed,
    /// The process is alive and the ping reported it ready.
    AliveReady,
    /// The process is alive but the ping did not report it ready.
    AliveNotReady,
    /// The process has exited, with the recorded status.
    Exited(ExitInfo),
}

/// Computes the derived health from an exit-status probe and, when one
/// was made, the outcome of the ping exchange (`true` exactly when the
/// worker counted as ready).  A probe that itself failed leaves the
/// worker unprobed rather than presumed dead.
pub fn derive_health(probe: &ProbeResult, ping_ready: Option<bool>) -> (h: HealthState)
    ensures
        (match probe {
            ProbeResult::Exited(info) => h == HealthState::Exited(*info),
            _ => match ping_ready {
                None => h == HealthState::AliveUnprobed,
                Some(true) => h == HealthState::AliveReady,
                Some(false) => h == HealthState::AliveNotReady,
            },
        }),
{
    match probe {
        ProbeResult::Exited(info) => HealthState::Exited(*info),
        _ => match ping_ready {
            None => HealthState::AliveUnprobed,
            Some(true) => HealthState::AliveReady,
            Some(false) => HealthState::AliveNotReady,
        },
    }
}

/// The fixed ping request line sent to probe readiness.
pub fn ping_request_line() -> (r: String)
    ensures
        r@ == "{\"ping\": true}"@,
{
    let s: &str = "{\"ping\": true}";
    s.to_owned()
}

/// Serializes a request value to the one line that is written to the
/// worker: success is owed on every value, and the line is
/// newline-free by construction.
pub fn encode_request(v: &serde_json::Value) -> (r: Result<String, SupervisorError>)
    ensures
        r matches Ok(s) && s@ == json_text_of(*v) && forall|i: int|
            0 <= i < s@.len() ==> s@[i] != '\n' && s@[i] != '\r',
{
    match crate::jsonio::encode_value(v) {
        Some(s) => Ok(s),
        None => {
            // Cannot happen: serializing a Value has no failure path.
            let m: &str = "Failed to serialize request";
            Err(SupervisorError::new(ErrorKind::Protocol, m.to_owned()))
        },
    }
}

/// The wrapping a failed readiness probe receives when it fails a load:
/// the kind is kept, the message is prefixed.
pub fn health_wrap(e: SupervisorError) -> (r: SupervisorError)
    ensures
        r.kind == e.kind,
        r.message@ == "Model health check failed: "@ + e.message@,
{
    let head: &str = "Model health check failed: ";
    SupervisorError::new(e.kind(), head.to_owned().concat(e.message().as_str()))
}

} // verus!
