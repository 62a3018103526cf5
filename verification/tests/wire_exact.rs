use llm_osd::parse::parse_action_plan;
use llm_osd::types::{
    ActionError, ActionErrorCode, ActionPlanResult, ActionResult, ExecResult, ReadFileResult,
};
use llm_osd::wire::{serialize_plan, serialize_plan_result};

#[test]
fn every_action_kind_serializes_to_its_exact_wire_form() {
    let pieces = [
        r#"{"request_id":"r","session_id":"s","version":"1","mode":"plan_only","actions":["#,
        r#"{"type":"exec","argv":["a"],"cwd":"/c","env":{"K":"V"},"timeout_sec":9,"as_root":false,"reason":"re","danger":"d","recovery":"rv"},"#,
        r#"{"type":"read_file","path":"/p","max_bytes":5,"reason":"r2","danger":null,"recovery":null},"#,
        r#"{"type":"write_file","path":"/w","content":"c","mode":"0644","reason":"r3","danger":null,"recovery":null},"#,
        r#"{"type":"service_control","action":"status","unit":"u","reason":"r4","danger":null,"recovery":null},"#,
        r#"{"type":"install_packages","manager":"apt","packages":["p1"],"reason":"r5","danger":null,"recovery":null},"#,
        r#"{"type":"remove_packages","manager":"brew","packages":["p2"],"reason":"r6","danger":null,"recovery":null},"#,
        r#"{"type":"update_system","manager":"apt","reason":"r7","danger":null,"recovery":null},"#,
        r#"{"type":"observe","tool":"ps","args":["x"],"reason":"r8","danger":null,"recovery":null},"#,
        r#"{"type":"cgroup_apply","pid":1,"unit":null,"cpu_weight":2,"mem_max_bytes":3,"reason":"r9","danger":null,"recovery":null},"#,
        r#"{"type":"firmware_op","op":"inventory","uefi_var_name":null,"reason":"r10","danger":null,"recovery":null},"#,
        r#"{"type":"ping"}],"confirmation":{"token":"t"}}"#,
    ];
    let expected: String = pieces.join("");
    let plan = parse_action_plan(&expected).unwrap();
    assert_eq!(serialize_plan(&plan), expected);
}

#[test]
fn exec_result_serializes_to_its_exact_wire_form() {
    let response = ActionPlanResult {
        request_id: "r".to_string(),
        executed: true,
        results: vec![
            ActionResult::Exec(ExecResult {
                ok: true,
                exit_code: Some(0),
                stdout: "o".to_string(),
                stdout_truncated: false,
                stderr: "e".to_string(),
                stderr_truncated: false,
                error: None,
            }),
            ActionResult::ReadFile(ReadFileResult {
                ok: false,
                content_base64: None,
                truncated: false,
                error: Some(ActionError {
                    code: ActionErrorCode::ReadFailed,
                    message: "read failed: gone".to_string(),
                }),
            }),
        ],
        error: None,
    };
    let pieces = [
        r#"{"request_id":"r","executed":true,"results":["#,
        r#"{"type":"exec","ok":true,"exit_code":0,"stdout":"o","stdout_truncated":false,"stderr":"e","stderr_truncated":false,"error":null},"#,
        r#"{"type":"read_file","ok":false,"content_base64":null,"truncated":false,"error":{"code":"read_failed","message":"read failed: gone"}}"#,
        r#"],"error":null}"#,
    ];
    let expected: String = pieces.join("");
    assert_eq!(serialize_plan_result(&response), expected);
}

#[test]
fn negative_exit_codes_serialize_with_a_sign() {
    let response = ActionPlanResult {
        request_id: "r".to_string(),
        executed: true,
        results: vec![ActionResult::Exec(ExecResult {
            ok: false,
            exit_code: Some(-9),
            stdout: String::new(),
            stdout_truncated: false,
            stderr: String::new(),
            stderr_truncated: false,
            error: None,
        })],
        error: None,
    };
    let wire = serialize_plan_result(&response);
    assert!(wire.contains("\"exit_code\":-9"));
}

#[test]
fn string_escapes_round_trip() {
    let input = r#"{"request_id":"r","version":"1","mode":"execute",
        "actions":[{"type":"write_file","path":"/tmp/x","content":"a\"b\\c\n\td\u00e9\ud83d\ude00","mode":"0644","reason":"t"}]}"#;
    let plan = parse_action_plan(input).unwrap();
    match &plan.actions[0] {
        llm_osd::types::Action::WriteFile(w) => {
            assert_eq!(w.content, "a\"b\\c\n\td\u{e9}\u{1F600}");
        }
        other => panic!("unexpected action: {:?}", other),
    }
    let wire = serialize_plan(&plan);
    assert!(wire.contains(r#""content":"a\"b\\c\n\td"#));
    let reparsed = parse_action_plan(&wire).unwrap();
    assert_eq!(plan, reparsed);
}

#[test]
fn control_characters_escape_as_hex() {
    let input = "{\"request_id\":\"r\",\"version\":\"1\",\"mode\":\"execute\",\"actions\":[{\"type\":\"write_file\",\"path\":\"/tmp/x\",\"content\":\"\\u0001\",\"mode\":\"0644\",\"reason\":\"t\"}]}";
    let plan = parse_action_plan(input).unwrap();
    let wire = serialize_plan(&plan);
    assert!(wire.contains(r#""content":"\u0001""#));
    assert_eq!(parse_action_plan(&wire).unwrap(), plan);
}

#[test]
fn parser_rejects_malformed_documents() {
    // Trailing content after the document.
    assert!(parse_action_plan(
        r#"{"request_id":"r","version":"1","mode":"execute","actions":[]} extra"#
    )
    .is_err());
    // Duplicate field.
    assert!(parse_action_plan(
        r#"{"request_id":"r","request_id":"r","version":"1","mode":"execute","actions":[]}"#
    )
    .is_err());
    // Missing required field.
    assert!(parse_action_plan(r#"{"request_id":"r","version":"1","actions":[]}"#).is_err());
    // Wrong type for a field.
    assert!(parse_action_plan(
        r#"{"request_id":5,"version":"1","mode":"execute","actions":[]}"#
    )
    .is_err());
    // Unknown mode value.
    assert!(parse_action_plan(
        r#"{"request_id":"r","version":"1","mode":"dry_run","actions":[]}"#
    )
    .is_err());
    // Lone surrogate escape.
    assert!(parse_action_plan(
        r#"{"request_id":"\ud800","version":"1","mode":"execute","actions":[]}"#
    )
    .is_err());
    // A float where an integer is required.
    assert!(parse_action_plan(
        r#"{"request_id":"r","version":"1","mode":"execute","actions":[{"type":"read_file","path":"/p","max_bytes":1.5,"reason":"t"}]}"#
    )
    .is_err());
}
