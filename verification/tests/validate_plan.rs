use llm_osd::parse::parse_action_plan;
use llm_osd::types::{
    Action, ActionPlan, Confirmation, EnvMap, ExecAction, Mode, ReadFileAction, WriteFileAction,
};
use llm_osd::validate::validate_action_plan;

fn base_plan(actions: Vec<Action>) -> ActionPlan {
    ActionPlan {
        request_id: "req-1".to_string(),
        session_id: None,
        version: "0.1".to_string(),
        mode: Mode::Execute,
        actions,
        confirmation: None,
    }
}

fn echo_exec() -> ExecAction {
    ExecAction {
        argv: vec!["/bin/echo".to_string(), "hi".to_string()],
        cwd: None,
        env: None,
        timeout_sec: 5,
        as_root: false,
        reason: "test".to_string(),
        danger: None,
        recovery: None,
    }
}

#[test]
fn parse_rejects_unknown_fields_in_exec_action() {
    let input = r#"
    {
      "version": "0.1",
      "mode": "execute",
      "actions": [
        {
          "type": "exec",
          "argv": ["echo", "hi"],
          "timeout_sec": 5,
          "as_root": false,
          "reason": "test",
          "unexpected": "hallucination"
        }
      ]
    }
    "#;

    let parsed = parse_action_plan(input);
    assert!(parsed.is_err());
}

#[test]
fn validate_rejects_empty_exec_argv() {
    let mut exec = echo_exec();
    exec.argv = vec![];
    let plan = base_plan(vec![Action::Exec(exec)]);

    let err = validate_action_plan(&plan).unwrap_err();
    assert_eq!(err.message, "exec.argv must be non-empty");
}

#[test]
fn validate_requires_confirmation_when_danger_is_set() {
    let mut exec = echo_exec();
    exec.danger = Some("danger".to_string());
    exec.recovery = Some("recovery".to_string());
    let plan = base_plan(vec![Action::Exec(exec)]);

    let err = validate_action_plan(&plan).unwrap_err();
    assert_eq!(err.message, "exec requires confirmation when danger is set");
}

#[test]
fn validate_rejects_as_root_true() {
    let mut exec = echo_exec();
    exec.as_root = true;
    let plan = base_plan(vec![Action::Exec(exec)]);

    let err = validate_action_plan(&plan).unwrap_err();
    assert_eq!(err.message, "exec.as_root is not supported");
}

#[test]
fn validate_rejects_read_file_max_bytes_too_large() {
    let plan = base_plan(vec![Action::ReadFile(ReadFileAction {
        path: "./Cargo.toml".to_string(),
        max_bytes: 10 * 1024 * 1024,
        reason: "test".to_string(),
        danger: None,
        recovery: None,
    })]);

    let err = validate_action_plan(&plan).unwrap_err();
    assert_eq!(err.message, "read_file.max_bytes is too large");
}

#[test]
fn validate_rejects_write_file_content_too_large() {
    let big = "a".repeat(128 * 1024);
    let plan = base_plan(vec![Action::WriteFile(WriteFileAction {
        path: "./out.txt".to_string(),
        content: big,
        mode: "0644".to_string(),
        reason: "test".to_string(),
        danger: None,
        recovery: None,
    })]);

    let err = validate_action_plan(&plan).unwrap_err();
    assert_eq!(err.message, "write_file.content is too large");
}

#[test]
fn validate_rejects_too_many_actions() {
    let mut actions = Vec::new();
    for _ in 0..65 {
        actions.push(Action::Ping);
    }
    let plan = base_plan(actions);

    let err = validate_action_plan(&plan).unwrap_err();
    assert_eq!(err.message, "too many actions");
}

#[test]
fn validate_rejects_exec_too_many_args() {
    let mut argv = Vec::new();
    argv.push("/bin/echo".to_string());
    for _ in 0..64 {
        argv.push("x".to_string());
    }
    let mut exec = echo_exec();
    exec.argv = argv;
    let plan = base_plan(vec![Action::Exec(exec)]);

    let err = validate_action_plan(&plan).unwrap_err();
    assert_eq!(err.message, "exec.argv has too many args");
}

#[test]
fn validate_rejects_exec_arg_too_long() {
    let long = "a".repeat(2049);
    let mut exec = echo_exec();
    exec.argv = vec!["/bin/echo".to_string(), long];
    let plan = base_plan(vec![Action::Exec(exec)]);

    let err = validate_action_plan(&plan).unwrap_err();
    assert_eq!(err.message, "exec.argv arg is too long");
}

#[test]
fn validate_rejects_exec_env_too_many_entries() {
    let mut env = EnvMap::new();
    for i in 0..33 {
        env.insert(format!("K{i}"), "V".to_string());
    }
    let mut exec = echo_exec();
    exec.env = Some(env);
    let plan = base_plan(vec![Action::Exec(exec)]);

    let err = validate_action_plan(&plan).unwrap_err();
    assert_eq!(err.message, "exec.env has too many entries");
}

#[test]
fn validate_rejects_exec_env_key_too_long() {
    let mut env = EnvMap::new();
    env.insert("K".repeat(129), "V".to_string());
    let mut exec = echo_exec();
    exec.env = Some(env);
    let plan = base_plan(vec![Action::Exec(exec)]);

    let err = validate_action_plan(&plan).unwrap_err();
    assert_eq!(err.message, "exec.env key is too long");
}

#[test]
fn validate_rejects_exec_env_value_too_long() {
    let mut env = EnvMap::new();
    env.insert("K".to_string(), "V".repeat(2049));
    let mut exec = echo_exec();
    exec.env = Some(env);
    let plan = base_plan(vec![Action::Exec(exec)]);

    let err = validate_action_plan(&plan).unwrap_err();
    assert_eq!(err.message, "exec.env value is too long");
}

#[test]
fn validate_rejects_request_id_too_long() {
    let mut plan = base_plan(vec![Action::Ping]);
    plan.request_id = "a".repeat(129);
    let err = validate_action_plan(&plan).unwrap_err();
    assert_eq!(err.message, "request_id is too long");
}

#[test]
fn validate_rejects_session_id_too_long() {
    let mut plan = base_plan(vec![Action::Ping]);
    plan.session_id = Some("a".repeat(129));
    let err = validate_action_plan(&plan).unwrap_err();
    assert_eq!(err.message, "session_id is too long");
}

#[test]
fn validate_rejects_reason_too_long() {
    let mut exec = echo_exec();
    exec.reason = "a".repeat(2049);
    let plan = base_plan(vec![Action::Exec(exec)]);
    let err = validate_action_plan(&plan).unwrap_err();
    assert_eq!(err.message, "reason is too long");
}

#[test]
fn validate_rejects_path_too_long() {
    let plan = base_plan(vec![Action::ReadFile(ReadFileAction {
        path: "a".repeat(4097),
        max_bytes: 1,
        reason: "test".to_string(),
        danger: None,
        recovery: None,
    })]);
    let err = validate_action_plan(&plan).unwrap_err();
    assert_eq!(err.message, "path is too long");
}

#[test]
fn validate_rejects_version_too_long() {
    let mut plan = base_plan(vec![Action::Ping]);
    plan.version = "a".repeat(129);
    let err = validate_action_plan(&plan).unwrap_err();
    assert_eq!(err.message, "version is too long");
}

#[test]
fn validate_rejects_confirmation_token_too_long() {
    let mut plan = base_plan(vec![Action::Ping]);
    plan.confirmation = Some(Confirmation {
        token: "a".repeat(1025),
    });
    let err = validate_action_plan(&plan).unwrap_err();
    assert_eq!(err.message, "confirmation.token is too long");
}

#[test]
fn validate_rejects_danger_too_long() {
    let mut exec = echo_exec();
    exec.danger = Some("a".repeat(2049));
    let mut plan = base_plan(vec![Action::Exec(exec)]);
    plan.confirmation = Some(Confirmation {
        token: "i-understand".to_string(),
    });
    let err = validate_action_plan(&plan).unwrap_err();
    assert_eq!(err.message, "danger is too long");
}

#[test]
fn validate_rejects_recovery_too_long() {
    let mut exec = echo_exec();
    exec.danger = Some("danger".to_string());
    exec.recovery = Some("a".repeat(2049));
    let mut plan = base_plan(vec![Action::Exec(exec)]);
    plan.confirmation = Some(Confirmation {
        token: "i-understand".to_string(),
    });
    let err = validate_action_plan(&plan).unwrap_err();
    assert_eq!(err.message, "recovery is too long");
}

#[test]
fn validate_rejects_write_file_mode_too_long() {
    let plan = base_plan(vec![Action::WriteFile(WriteFileAction {
        path: "./out.txt".to_string(),
        content: "x".to_string(),
        mode: "a".repeat(129),
        reason: "test".to_string(),
        danger: None,
        recovery: None,
    })]);
    let err = validate_action_plan(&plan).unwrap_err();
    assert_eq!(err.message, "write_file.mode is too long");
}

#[test]
fn validate_rejects_exec_timeout_too_large() {
    let mut exec = echo_exec();
    exec.timeout_sec = 61;
    let plan = base_plan(vec![Action::Exec(exec)]);

    let err = validate_action_plan(&plan).unwrap_err();
    assert_eq!(err.message, "exec.timeout_sec is too large");
}

#[test]
fn validate_rejects_write_file_mode_format() {
    let plan = base_plan(vec![Action::WriteFile(WriteFileAction {
        path: "./out.txt".to_string(),
        content: "x".to_string(),
        mode: "not-octal".to_string(),
        reason: "test".to_string(),
        danger: None,
        recovery: None,
    })]);

    let err = validate_action_plan(&plan).unwrap_err();
    assert_eq!(err.message, "write_file.mode is invalid");
}

#[test]
fn validate_accepts_danger_with_confirmation() {
    let mut exec = echo_exec();
    exec.danger = Some("danger".to_string());
    let mut plan = base_plan(vec![Action::Exec(exec)]);
    plan.confirmation = Some(Confirmation {
        token: "i-understand".to_string(),
    });
    assert!(validate_action_plan(&plan).is_ok());
}

#[test]
fn validate_rejects_blank_request_id() {
    let mut plan = base_plan(vec![Action::Ping]);
    plan.request_id = "   ".to_string();
    let err = validate_action_plan(&plan).unwrap_err();
    assert_eq!(err.message, "request_id must be non-empty");
}

#[test]
fn validate_accepts_octal_mode_with_prefix() {
    let plan = base_plan(vec![Action::WriteFile(WriteFileAction {
        path: "./out.txt".to_string(),
        content: "x".to_string(),
        mode: " 0o644 ".to_string(),
        reason: "test".to_string(),
        danger: None,
        recovery: None,
    })]);
    assert!(validate_action_plan(&plan).is_ok());
}

#[test]
fn validate_rejects_cgroup_apply_without_target() {
    let input = r#"{"request_id":"r1","version":"0.1","mode":"plan_only",
        "actions":[{"type":"cgroup_apply","cpu_weight":10,"reason":"t"}]}"#;
    let plan = parse_action_plan(input).unwrap();
    let err = validate_action_plan(&plan).unwrap_err();
    assert_eq!(err.message, "cgroup_apply requires pid or unit");
}

#[test]
fn validate_rejects_cgroup_apply_with_both_targets() {
    let input = r#"{"request_id":"r1","version":"0.1","mode":"plan_only",
        "actions":[{"type":"cgroup_apply","pid":1,"unit":"a.service","cpu_weight":10,"reason":"t"}]}"#;
    let plan = parse_action_plan(input).unwrap();
    let err = validate_action_plan(&plan).unwrap_err();
    assert_eq!(err.message, "cgroup_apply must not set both pid and unit");
}

#[test]
fn validate_rejects_cgroup_apply_without_settings() {
    let input = r#"{"request_id":"r1","version":"0.1","mode":"plan_only",
        "actions":[{"type":"cgroup_apply","pid":1,"reason":"t"}]}"#;
    let plan = parse_action_plan(input).unwrap();
    let err = validate_action_plan(&plan).unwrap_err();
    assert_eq!(err.message, "cgroup_apply requires at least one setting");
}
