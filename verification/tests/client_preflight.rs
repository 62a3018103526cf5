use llm_osd::client::{
    apply_overrides, parse_and_validate, parse_and_validate_for_send,
    parse_and_validate_for_send_with_overrides, validate_verdict,
};
use llm_osd::types::ErrorCode;

#[test]
fn validate_allows_plan_only_mode() {
    let input = r#"{
      "request_id":"req-1",
      "version":"0.1",
      "mode":"plan_only",
      "actions":[]
    }"#;

    parse_and_validate(input).unwrap();
}

#[test]
fn rejects_plan_only_mode() {
    let input = r#"{
      "request_id":"req-1",
      "version":"0.1",
      "mode":"plan_only",
      "actions":[]
    }"#;

    let err = parse_and_validate_for_send(input).unwrap_err();
    assert!(err.message.contains("client refuses non-execute mode"));
}

#[test]
fn verdict_reports_parse_failed_for_unknown_fields() {
    let input = r#"{
      "request_id":"req-1",
      "version":"0.1",
      "mode":"execute",
      "actions":[],
      "unexpected":"x"
    }"#;

    let v = validate_verdict(input);
    assert!(!v.ok);
    assert_eq!(v.error.as_ref().unwrap().code, ErrorCode::ParseFailed);
}

#[test]
fn verdict_reports_validation_failed_for_missing_request_id() {
    let input = r#"{
      "request_id":"   ",
      "version":"0.1",
      "mode":"execute",
      "actions":[]
    }"#;

    let v = validate_verdict(input);
    assert!(!v.ok);
    assert_eq!(v.error.as_ref().unwrap().code, ErrorCode::ValidationFailed);
}

#[test]
fn apply_overrides_sets_session_id() {
    let input = r#"{
      "request_id":"req-1",
      "version":"0.1",
      "mode":"execute",
      "actions":[]
    }"#;
    let plan = parse_and_validate(input).unwrap();
    let updated = apply_overrides(plan, None, Some("sess-1")).unwrap();
    assert_eq!(updated.session_id.as_deref(), Some("sess-1"));
}

#[test]
fn send_with_overrides_allows_blank_request_id() {
    let input = r#"{
      "request_id":"   ",
      "version":"0.1",
      "mode":"execute",
      "actions":[]
    }"#;

    let plan = parse_and_validate_for_send_with_overrides(input, Some("req-1"), None).unwrap();
    assert_eq!(plan.request_id, "req-1");
}

#[test]
fn apply_overrides_rejects_blank_request_id_override() {
    let input = r#"{
      "request_id":"req-1",
      "version":"0.1",
      "mode":"execute",
      "actions":[]
    }"#;
    let plan = parse_and_validate(input).unwrap();
    let err = apply_overrides(plan, Some("  "), None).unwrap_err();
    assert_eq!(err.message, "request_id override must be non-empty");
}

#[test]
fn verdict_ok_for_valid_execute_plan() {
    let input = r#"{"request_id":"r1","version":"0.1","mode":"execute","actions":[{"type":"ping"}]}"#;
    let v = validate_verdict(input);
    assert!(v.ok);
    assert!(v.error.is_none());
}
