use base64::Engine;
use llm_osd::audit::{audit_record, redact_plan, redact_plan_result};
use llm_osd::dispatch::{
    exec_finished_result, exec_spawn_error_result, exec_timeout_result, execute_gate, plan_action,
    truncate_bytes,
};
use llm_osd::files::{absorb_chunk, parse_mode, read_done_result, write_mode_or_error};
use llm_osd::parse::parse_action_plan;
use llm_osd::policy::{
    confirmation_is_valid, confirmation_token_hint, exec_requires_confirmation, is_exec_denied,
    path_requires_confirmation,
};
use llm_osd::request::{finish_response, plan_only_response, preflight, Preflight, RequestReader};
use llm_osd::types::{
    Action, ActionErrorCode, ActionResult, ErrorCode, ExecAction, Mode, PeerCredentials,
};
use llm_osd::wire::{serialize_plan, serialize_plan_result};

const TOKEN: &str = "i-understand";

fn read_plan(reader: &RequestReader) -> llm_osd::types::ActionPlan {
    match preflight(reader, false) {
        Preflight::Dispatch(p) => p,
        Preflight::Reply(r) => panic!("unexpected reply: {:?}", r),
    }
}

fn feed_all(reader: &mut RequestReader, bytes: &[u8]) {
    let mut off = 0;
    while off < bytes.len() {
        let n = (bytes.len() - off).min(4096);
        reader.feed(&bytes[off..off + n], n);
        off += n;
    }
}

/// Runs the execute-mode dispatcher for plans whose actions need no host
/// access (every gate decides).
fn execute_gated(plan: &llm_osd::types::ActionPlan) -> llm_osd::types::ActionPlanResult {
    let token = plan.confirmation.as_ref().map(|c| c.token.as_str());
    let mut results = Vec::new();
    for action in plan.actions.iter() {
        match execute_gate(action, token, TOKEN) {
            Some(r) => results.push(r),
            None => panic!("action needs host access"),
        }
    }
    finish_response(plan, results)
}

#[test]
fn ping_roundtrip_produces_pong() {
    let input = r#"{"request_id":"r1","version":"0.1","mode":"execute","actions":[{"type":"ping"}]}"#;
    let mut reader = RequestReader::new();
    feed_all(&mut reader, input.as_bytes());
    let plan = read_plan(&reader);
    assert_eq!(plan.mode, Mode::Execute);

    let response = execute_gated(&plan);
    assert!(response.executed);
    assert!(response.error.is_none());
    assert_eq!(response.results.len(), 1);
    match &response.results[0] {
        ActionResult::Pong(p) => assert!(p.ok),
        other => panic!("unexpected result: {:?}", other),
    }

    let wire = serialize_plan_result(&response);
    assert!(wire.contains("\"type\":\"pong\",\"ok\":true"));
    assert!(wire.contains("\"error\":null"));
    assert!(wire.contains("\"request_id\":\"r1\""));
}

#[test]
fn echo_exec_passes_gates_and_reports_stdout() {
    let exec = ExecAction {
        argv: vec!["/bin/echo".to_string(), "hi".to_string()],
        cwd: None,
        env: None,
        timeout_sec: 5,
        as_root: false,
        reason: "test".to_string(),
        danger: None,
        recovery: None,
    };
    let action = Action::Exec(exec);
    assert!(execute_gate(&action, None, TOKEN).is_none());

    let result = exec_finished_result(true, Some(0), b"hi\n", b"");
    match result {
        ActionResult::Exec(x) => {
            assert!(x.ok);
            assert_eq!(x.exit_code, Some(0));
            assert!(x.stdout.contains("hi"));
            assert!(!x.stdout_truncated);
        }
        other => panic!("unexpected result: {:?}", other),
    }
}

#[test]
fn denied_program_is_refused_even_with_confirmation() {
    let input = r#"{"request_id":"r1","version":"0.1","mode":"execute",
        "actions":[{"type":"exec","argv":["/sbin/reboot"],"timeout_sec":5,"as_root":false,"reason":"t"}],
        "confirmation":{"token":"i-understand"}}"#;
    let mut reader = RequestReader::new();
    feed_all(&mut reader, input.as_bytes());
    let plan = read_plan(&reader);

    let response = execute_gated(&plan);
    match &response.results[0] {
        ActionResult::Exec(x) => {
            assert!(!x.ok);
            let err = x.error.as_ref().unwrap();
            assert_eq!(err.code, ActionErrorCode::PolicyDenied);
            assert_eq!(err.message, "exec denied by policy");
        }
        other => panic!("unexpected result: {:?}", other),
    }
}

#[test]
fn non_allowlisted_exec_requires_confirmation_then_passes() {
    let action = Action::Exec(ExecAction {
        argv: vec!["/usr/bin/true".to_string()],
        cwd: None,
        env: None,
        timeout_sec: 5,
        as_root: false,
        reason: "test".to_string(),
        danger: None,
        recovery: None,
    });

    match execute_gate(&action, None, TOKEN) {
        Some(ActionResult::Exec(x)) => {
            assert!(!x.ok);
            assert_eq!(
                x.error.as_ref().unwrap().code,
                ActionErrorCode::ConfirmationRequired
            );
            assert_eq!(x.error.as_ref().unwrap().message, "confirmation required");
        }
        other => panic!("unexpected gate outcome: {:?}", other),
    }

    let hint = confirmation_token_hint(TOKEN);
    assert!(execute_gate(&action, Some(hint), TOKEN).is_none());
}

#[test]
fn oversized_request_gets_request_too_large() {
    let mut reader = RequestReader::new();
    let chunk = [b'a'; 4096];
    for _ in 0..75 {
        reader.feed(&chunk, chunk.len());
    }
    assert!(reader.exceeded);
    match preflight(&reader, false) {
        Preflight::Reply(r) => {
            assert!(!r.executed);
            assert!(r.results.is_empty());
            let err = r.error.as_ref().unwrap();
            assert_eq!(err.code, ErrorCode::RequestTooLarge);
            assert_eq!(r.request_id, "unknown");
        }
        Preflight::Dispatch(_) => panic!("oversized request dispatched"),
    }
}

#[test]
fn plan_only_write_file_succeeds_without_side_effects() {
    let input = r#"{"request_id":"r1","version":"0.1","mode":"plan_only",
        "actions":[{"type":"write_file","path":"/tmp/plan-only.txt","content":"hi","mode":"0644","reason":"t"}]}"#;
    let plan = parse_action_plan(input).unwrap();
    let response = plan_only_response(&plan, TOKEN);
    assert!(!response.executed);
    assert!(response.error.is_none());
    match &response.results[0] {
        ActionResult::WriteFile(w) => {
            assert!(w.ok);
            assert!(w.artifacts.is_empty());
        }
        other => panic!("unexpected result: {:?}", other),
    }
}

#[test]
fn bounded_read_truncates_at_max_bytes() {
    // A quarter-gigabyte of zeros arrives in chunks; the buffer never grows
    // past max_bytes + 1 and the kept payload is exactly max_bytes long.
    let max = 16384usize;
    let chunk = [0u8; 4096];
    let mut data: Vec<u8> = Vec::new();
    let total_chunks = 256 * 1024 * 1024 / chunk.len();
    for _ in 0..total_chunks {
        absorb_chunk(&mut data, &chunk, chunk.len(), max);
        assert!(data.len() <= max + 1);
    }
    assert_eq!(data.len(), max + 1);

    match read_done_result(&data, max) {
        ActionResult::ReadFile(r) => {
            assert!(r.ok);
            assert!(r.truncated);
            let decoded = base64::engine::general_purpose::STANDARD
                .decode(r.content_base64.unwrap())
                .unwrap();
            assert_eq!(decoded.len(), max);
            assert!(decoded.iter().all(|b| *b == 0));
        }
        other => panic!("unexpected result: {:?}", other),
    }
}

#[test]
fn small_read_is_not_truncated() {
    let mut data: Vec<u8> = Vec::new();
    absorb_chunk(&mut data, b"hello", 5, 16384);
    match read_done_result(&data, 16384) {
        ActionResult::ReadFile(r) => {
            assert!(r.ok);
            assert!(!r.truncated);
            let decoded = base64::engine::general_purpose::STANDARD
                .decode(r.content_base64.unwrap())
                .unwrap();
            assert_eq!(decoded, b"hello");
        }
        other => panic!("unexpected result: {:?}", other),
    }
}

#[test]
fn invalid_octal_mode_fails_validation_through_preflight() {
    let input = r#"{"request_id":"r1","version":"0.1","mode":"execute",
        "actions":[{"type":"write_file","path":"/tmp/x","content":"x","mode":"abc","reason":"t"}]}"#;
    let mut reader = RequestReader::new();
    feed_all(&mut reader, input.as_bytes());
    match preflight(&reader, false) {
        Preflight::Reply(r) => {
            let err = r.error.as_ref().unwrap();
            assert_eq!(err.code, ErrorCode::ValidationFailed);
            assert_eq!(err.message, "validation failed: write_file.mode is invalid");
            assert_eq!(r.request_id, "r1");
        }
        Preflight::Dispatch(_) => panic!("invalid mode dispatched"),
    }
}

#[test]
fn idle_empty_connection_gets_parse_failed() {
    let reader = RequestReader::new();
    match preflight(&reader, true) {
        Preflight::Reply(r) => {
            let err = r.error.as_ref().unwrap();
            assert_eq!(err.code, ErrorCode::ParseFailed);
            assert_eq!(err.message, "read timed out");
        }
        Preflight::Dispatch(_) => panic!("empty input dispatched"),
    }
}

#[test]
fn idle_with_complete_document_still_parses() {
    let input = r#"{"request_id":"r1","version":"0.1","mode":"execute","actions":[{"type":"ping"}]}"#;
    let mut reader = RequestReader::new();
    feed_all(&mut reader, input.as_bytes());
    match preflight(&reader, true) {
        Preflight::Dispatch(p) => assert_eq!(p.request_id, "r1"),
        Preflight::Reply(r) => panic!("unexpected reply: {:?}", r),
    }
}

#[test]
fn invalid_json_gets_parse_failed() {
    let mut reader = RequestReader::new();
    feed_all(&mut reader, b"{ not json");
    match preflight(&reader, false) {
        Preflight::Reply(r) => {
            assert_eq!(r.error.as_ref().unwrap().code, ErrorCode::ParseFailed);
            assert_eq!(r.request_id, "unknown");
        }
        Preflight::Dispatch(_) => panic!("garbage dispatched"),
    }
}

#[test]
fn exec_rm_requires_confirmation() {
    let exec = ExecAction {
        argv: vec!["rm".to_string(), "-rf".to_string(), "/tmp/x".to_string()],
        cwd: None,
        env: None,
        timeout_sec: 5,
        as_root: false,
        reason: "test".to_string(),
        danger: None,
        recovery: None,
    };
    assert!(!is_exec_denied(&exec));
    assert!(exec_requires_confirmation(&exec));
}

#[test]
fn sensitive_paths_require_confirmation() {
    assert!(path_requires_confirmation("/etc/passwd"));
    assert!(!path_requires_confirmation("/tmp/scratch.txt"));
    assert!(path_requires_confirmation("/tmp/../etc/passwd"));
    assert!(path_requires_confirmation("work/../secrets"));
    assert!(!path_requires_confirmation("..hidden"));
    assert!(!path_requires_confirmation("relative/path.txt"));
}

#[test]
fn confirmation_token_is_trimmed_before_comparison() {
    assert!(confirmation_is_valid(Some(" i-understand "), TOKEN));
    assert!(confirmation_is_valid(Some("i-understand"), TOKEN));
    assert!(!confirmation_is_valid(Some("i-misunderstand"), TOKEN));
    assert!(!confirmation_is_valid(None, TOKEN));
}

#[test]
fn parse_mode_accepts_octal_and_rejects_junk() {
    assert_eq!(parse_mode("0644").unwrap(), 0o644);
    assert_eq!(parse_mode("0o755").unwrap(), 0o755);
    assert_eq!(parse_mode(" 644 ").unwrap(), 0o644);
    assert!(parse_mode("abc").is_err());
    assert!(parse_mode("").is_err());
    let err = parse_mode("99").unwrap_err();
    assert_eq!(err, "mode must be an octal string like 0644");
}

#[test]
fn write_mode_or_error_reports_invalid_mode_string() {
    let w = llm_osd::types::WriteFileAction {
        path: "/tmp/x".to_string(),
        content: "x".to_string(),
        mode: "zz".to_string(),
        reason: "t".to_string(),
        danger: None,
        recovery: None,
    };
    match write_mode_or_error(&w) {
        Err(ActionResult::WriteFile(x)) => {
            assert_eq!(
                x.error.as_ref().unwrap().code,
                ActionErrorCode::InvalidModeString
            );
        }
        other => panic!("unexpected outcome: {:?}", other),
    }
}

#[test]
fn exec_failure_results_carry_their_codes() {
    match exec_timeout_result() {
        ActionResult::Exec(x) => {
            assert!(!x.ok);
            assert_eq!(x.error.as_ref().unwrap().code, ActionErrorCode::ExecTimedOut);
            assert_eq!(x.error.as_ref().unwrap().message, "exec timed out");
        }
        other => panic!("unexpected result: {:?}", other),
    }
    match exec_spawn_error_result("no such file") {
        ActionResult::Exec(x) => {
            assert_eq!(x.error.as_ref().unwrap().code, ActionErrorCode::ExecFailed);
            assert_eq!(x.error.as_ref().unwrap().message, "exec failed: no such file");
        }
        other => panic!("unexpected result: {:?}", other),
    }
}

#[test]
fn stdio_capture_truncates_with_marker() {
    let long = vec![b'x'; 9000];
    let (text, truncated) = truncate_bytes(&long);
    assert!(truncated);
    assert!(text.ends_with("\n[truncated]\n"));
    assert_eq!(text.len(), 8192 + "\n[truncated]\n".len());

    let (short_text, short_truncated) = truncate_bytes(b"fine");
    assert!(!short_truncated);
    assert_eq!(short_text, "fine");
}

#[test]
fn lossy_decoding_replaces_invalid_bytes() {
    let (text, truncated) = truncate_bytes(&[0xFF, 0xFE]);
    assert!(!truncated);
    assert_eq!(text, "\u{FFFD}\u{FFFD}");
}

#[test]
fn base64_encoding_is_real() {
    let mut data: Vec<u8> = Vec::new();
    absorb_chunk(&mut data, b"hi", 2, 100);
    match read_done_result(&data, 100) {
        ActionResult::ReadFile(r) => {
            assert_eq!(r.content_base64.unwrap(), "aGk=");
        }
        other => panic!("unexpected result: {:?}", other),
    }
}

#[test]
fn plan_only_gates_still_apply() {
    let input = r#"{"request_id":"r1","version":"0.1","mode":"plan_only",
        "actions":[{"type":"exec","argv":["/sbin/reboot"],"timeout_sec":5,"as_root":false,"reason":"t"},
                   {"type":"exec","argv":["/usr/bin/true"],"timeout_sec":5,"as_root":false,"reason":"t"},
                   {"type":"read_file","path":"/etc/passwd","max_bytes":100,"reason":"t"}]}"#;
    let plan = parse_action_plan(input).unwrap();
    let response = plan_only_response(&plan, TOKEN);
    assert!(!response.executed);
    match &response.results[0] {
        ActionResult::Exec(x) => {
            assert_eq!(x.error.as_ref().unwrap().code, ActionErrorCode::PolicyDenied)
        }
        other => panic!("unexpected result: {:?}", other),
    }
    match &response.results[1] {
        ActionResult::Exec(x) => assert_eq!(
            x.error.as_ref().unwrap().code,
            ActionErrorCode::ConfirmationRequired
        ),
        other => panic!("unexpected result: {:?}", other),
    }
    match &response.results[2] {
        ActionResult::ReadFile(x) => assert_eq!(
            x.error.as_ref().unwrap().code,
            ActionErrorCode::ConfirmationRequired
        ),
        other => panic!("unexpected result: {:?}", other),
    }
}

#[test]
fn preview_only_actions_refused_in_execute_mode() {
    let input = r#"{"request_id":"r1","version":"0.1","mode":"execute",
        "actions":[{"type":"service_control","action":"status","unit":"ssh.service","reason":"t"}]}"#;
    let plan = parse_action_plan(input).unwrap();
    let response = execute_gated(&plan);
    match &response.results[0] {
        ActionResult::ServiceControl(x) => {
            assert!(!x.ok);
            assert!(x.argv.is_empty());
            assert_eq!(
                x.error.as_ref().unwrap().message,
                "service_control is not supported in execute mode"
            );
        }
        other => panic!("unexpected result: {:?}", other),
    }
}

#[test]
fn audit_line_redacts_every_secret() {
    let input = r#"{"request_id":"r-audit","session_id":"sess-9","version":"0.1","mode":"execute",
        "actions":[{"type":"write_file","path":"/tmp/x","content":"SuperSecretContents","mode":"0644","reason":"t"},
                   {"type":"exec","argv":["/bin/echo"],"env":{"API_KEY":"HiddenEnvValue"},"timeout_sec":5,"as_root":false,"reason":"t"}],
        "confirmation":{"token":"TopSecretToken"}}"#;
    let plan = parse_action_plan(input).unwrap();
    let token = plan.confirmation.as_ref().map(|c| c.token.as_str());
    let mut results = Vec::new();
    for action in plan.actions.iter() {
        match execute_gate(action, token, "TopSecretToken") {
            Some(r) => results.push(r),
            None => results.push(exec_finished_result(
                true,
                Some(0),
                b"LoudStdoutSecret",
                b"LoudStderrSecret",
            )),
        }
    }
    let response = finish_response(&plan, results);

    let peer = Some(PeerCredentials {
        pid: 4242,
        uid: 1000,
        gid: 1000,
    });
    let line = audit_record(
        1700000000000,
        &peer,
        &redact_plan(plan),
        &redact_plan_result(response),
    );

    assert!(!line.contains("SuperSecretContents"));
    assert!(!line.contains("TopSecretToken"));
    assert!(!line.contains("HiddenEnvValue"));
    assert!(!line.contains("LoudStdoutSecret"));
    assert!(!line.contains("LoudStderrSecret"));
    assert!(line.contains("[redacted]"));
    assert!(line.contains("\"API_KEY\""));
    assert!(line.contains("\"request_id\":\"r-audit\""));
    assert!(line.contains("\"session_id\":\"sess-9\""));
    assert!(line.contains("\"pid\":4242"));
    assert!(line.contains("\"ts_unix_ms\":1700000000000"));
}

#[test]
fn serialization_round_trips_through_the_parser() {
    let input = r#"{"request_id":"r1","session_id":"s1","version":"0.1","mode":"execute",
        "actions":[{"type":"exec","argv":["/bin/echo","a\"b\\c\n"],"cwd":"/tmp","env":{"B":"2","A":"1"},"timeout_sec":5,"as_root":false,"reason":"why","danger":"careful","recovery":"undo"},
                   {"type":"cgroup_apply","pid":1234,"cpu_weight":100,"mem_max_bytes":1048576,"reason":"t"},
                   {"type":"firmware_op","op":"uefi_var_read","uefi_var_name":"BootOrder","reason":"t"},
                   {"type":"ping"}],
        "confirmation":{"token":"i-understand"}}"#;
    let plan = parse_action_plan(input).unwrap();
    let wire = serialize_plan(&plan);
    let reparsed = parse_action_plan(&wire).unwrap();
    assert_eq!(plan, reparsed);
    assert_eq!(wire, serialize_plan(&reparsed));
}

#[test]
fn canonical_ping_serialization_is_exact() {
    let input = r#"{"request_id":"r1","version":"0.1","mode":"execute","actions":[{"type":"ping"}]}"#;
    let plan = parse_action_plan(input).unwrap();
    assert_eq!(
        serialize_plan(&plan),
        r#"{"request_id":"r1","session_id":null,"version":"0.1","mode":"execute","actions":[{"type":"ping"}],"confirmation":null}"#
    );
}

#[test]
fn read_and_write_failures_carry_their_codes() {
    match llm_osd::files::read_failed_result("no such file") {
        ActionResult::ReadFile(x) => {
            assert!(!x.ok);
            assert_eq!(x.error.as_ref().unwrap().code, ActionErrorCode::ReadFailed);
            assert_eq!(x.error.as_ref().unwrap().message, "read failed: no such file");
        }
        other => panic!("unexpected result: {:?}", other),
    }
    match llm_osd::files::write_failed_result("disk full") {
        ActionResult::WriteFile(x) => {
            assert_eq!(x.error.as_ref().unwrap().code, ActionErrorCode::WriteFailed);
            assert_eq!(x.error.as_ref().unwrap().message, "write failed: disk full");
        }
        other => panic!("unexpected result: {:?}", other),
    }
    match llm_osd::files::chmod_failed_result("denied") {
        ActionResult::WriteFile(x) => {
            assert_eq!(x.error.as_ref().unwrap().code, ActionErrorCode::WriteFailed);
            assert_eq!(x.error.as_ref().unwrap().message, "chmod failed: denied");
        }
        other => panic!("unexpected result: {:?}", other),
    }
}

#[test]
fn env_insert_replaces_existing_keys() {
    let mut env = llm_osd::types::EnvMap::new();
    env.insert("PATH".to_string(), "/usr/bin".to_string());
    env.insert("HOME".to_string(), "/root".to_string());
    env.insert("PATH".to_string(), "/bin".to_string());
    assert_eq!(env.len(), 2);
    assert_eq!(env.entries[0].key, "PATH");
    assert_eq!(env.entries[0].value, "/bin");
    assert_eq!(env.entries[1].key, "HOME");
}

#[test]
fn write_ok_result_lists_the_path_as_artifact() {
    match llm_osd::files::write_ok_result("/tmp/out.txt") {
        ActionResult::WriteFile(x) => {
            assert!(x.ok);
            assert_eq!(x.artifacts, vec!["/tmp/out.txt"]);
            assert!(x.error.is_none());
        }
        other => panic!("unexpected result: {:?}", other),
    }
}
