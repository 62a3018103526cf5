use llm_osd::parse::parse_action_plan;
use llm_osd::request::plan_only_response;
use llm_osd::types::{ActionErrorCode, ActionResult};

const TOKEN: &str = "i-understand";

fn preview_one(action_json: &str) -> ActionResult {
    let input = format!(
        r#"{{"request_id":"r1","version":"0.1","mode":"plan_only","actions":[{}]}}"#,
        action_json
    );
    let plan = parse_action_plan(&input).unwrap();
    let response = plan_only_response(&plan, TOKEN);
    assert!(!response.executed);
    assert!(response.error.is_none());
    assert_eq!(response.results.len(), 1);
    response.results[0].clone()
}

#[test]
fn service_control_preview_synthesizes_systemctl() {
    let r = preview_one(
        r#"{"type":"service_control","action":"status","unit":"ssh.service","reason":"t"}"#,
    );
    match r {
        ActionResult::ServiceControl(x) => {
            assert!(x.ok);
            assert_eq!(x.argv, vec!["systemctl", "status", "ssh.service"]);
        }
        other => panic!("unexpected result: {:?}", other),
    }
}

#[test]
fn install_packages_preview_uses_manager_syntax() {
    let r = preview_one(
        r#"{"type":"install_packages","manager":"apt","packages":["curl","git"],"reason":"t"}"#,
    );
    match r {
        ActionResult::InstallPackages(x) => {
            assert!(x.ok);
            assert_eq!(x.argv, vec!["apt-get", "install", "-y", "curl", "git"]);
        }
        other => panic!("unexpected result: {:?}", other),
    }
}

#[test]
fn remove_packages_preview_uses_manager_syntax() {
    let r = preview_one(
        r#"{"type":"remove_packages","manager":"apt","packages":["curl","git"],"reason":"t"}"#,
    );
    match r {
        ActionResult::RemovePackages(x) => {
            assert!(x.ok);
            assert_eq!(x.argv, vec!["apt-get", "remove", "-y", "curl", "git"]);
        }
        other => panic!("unexpected result: {:?}", other),
    }
}

#[test]
fn pacman_previews_use_noconfirm() {
    let r = preview_one(
        r#"{"type":"install_packages","manager":"pacman","packages":["vim"],"reason":"t"}"#,
    );
    match r {
        ActionResult::InstallPackages(x) => {
            assert_eq!(x.argv, vec!["pacman", "-S", "--noconfirm", "vim"]);
        }
        other => panic!("unexpected result: {:?}", other),
    }
}

#[test]
fn other_manager_is_policy_denied() {
    let r = preview_one(
        r#"{"type":"install_packages","manager":"other","packages":["x"],"reason":"t"}"#,
    );
    match r {
        ActionResult::InstallPackages(x) => {
            assert!(!x.ok);
            assert!(x.argv.is_empty());
            let err = x.error.unwrap();
            assert_eq!(err.code, ActionErrorCode::PolicyDenied);
            assert_eq!(err.message, "install_packages manager not supported");
        }
        other => panic!("unexpected result: {:?}", other),
    }
}

#[test]
fn update_system_preview_is_apt_only() {
    let r = preview_one(r#"{"type":"update_system","manager":"apt","reason":"t"}"#);
    match r {
        ActionResult::UpdateSystem(x) => {
            assert!(x.ok);
            assert_eq!(
                x.argv,
                vec!["apt-get", "update", "&&", "apt-get", "upgrade", "-y"]
            );
        }
        other => panic!("unexpected result: {:?}", other),
    }

    let r = preview_one(r#"{"type":"update_system","manager":"dnf","reason":"t"}"#);
    match r {
        ActionResult::UpdateSystem(x) => {
            assert!(!x.ok);
            assert_eq!(
                x.error.unwrap().message,
                "update_system manager not supported"
            );
        }
        other => panic!("unexpected result: {:?}", other),
    }
}

#[test]
fn observe_preview_prepends_tool() {
    let r = preview_one(r#"{"type":"observe","tool":"ps","args":["aux"],"reason":"t"}"#);
    match r {
        ActionResult::Observe(x) => {
            assert!(x.ok);
            assert_eq!(x.argv, vec!["ps", "aux"]);
        }
        other => panic!("unexpected result: {:?}", other),
    }
}

#[test]
fn cgroup_apply_preview_orders_flags() {
    let r = preview_one(
        r#"{"type":"cgroup_apply","pid":1234,"unit":null,"cpu_weight":100,"mem_max_bytes":1048576,"reason":"t"}"#,
    );
    match r {
        ActionResult::CgroupApply(x) => {
            assert!(x.ok);
            assert_eq!(
                x.argv,
                vec![
                    "systemd-run",
                    "--scope",
                    "-p",
                    "CPUWeight=100",
                    "-p",
                    "MemoryMax=1048576",
                    "--pid=1234"
                ]
            );
        }
        other => panic!("unexpected result: {:?}", other),
    }
}

#[test]
fn cgroup_apply_preview_targets_unit() {
    let r = preview_one(
        r#"{"type":"cgroup_apply","unit":"nginx.service","cpu_weight":50,"reason":"t"}"#,
    );
    match r {
        ActionResult::CgroupApply(x) => {
            assert!(x.ok);
            assert_eq!(
                x.argv,
                vec![
                    "systemd-run",
                    "--scope",
                    "-p",
                    "CPUWeight=50",
                    "--unit=nginx.service"
                ]
            );
        }
        other => panic!("unexpected result: {:?}", other),
    }
}

#[test]
fn firmware_op_previews() {
    let r = preview_one(r#"{"type":"firmware_op","op":"inventory","reason":"t"}"#);
    match r {
        ActionResult::FirmwareOp(x) => {
            assert!(x.ok);
            assert_eq!(x.argv, vec!["dmidecode"]);
        }
        other => panic!("unexpected result: {:?}", other),
    }

    let r = preview_one(r#"{"type":"firmware_op","op":"fwupd_update","reason":"t"}"#);
    match r {
        ActionResult::FirmwareOp(x) => {
            assert_eq!(x.argv, vec!["fwupdmgr", "update"]);
        }
        other => panic!("unexpected result: {:?}", other),
    }

    let r = preview_one(
        r#"{"type":"firmware_op","op":"uefi_var_read","uefi_var_name":"BootOrder","reason":"t"}"#,
    );
    match r {
        ActionResult::FirmwareOp(x) => {
            assert_eq!(x.argv, vec!["cat", "/sys/firmware/efi/efivars/BootOrder"]);
        }
        other => panic!("unexpected result: {:?}", other),
    }

    let r = preview_one(r#"{"type":"firmware_op","op":"uefi_var_read","reason":"t"}"#);
    match r {
        ActionResult::FirmwareOp(x) => {
            assert!(!x.ok);
            assert_eq!(x.error.unwrap().message, "firmware_op target is invalid");
        }
        other => panic!("unexpected result: {:?}", other),
    }
}

#[test]
fn observe_other_tool_is_denied() {
    let r = preview_one(r#"{"type":"observe","tool":"other","args":[],"reason":"t"}"#);
    match r {
        ActionResult::Observe(x) => {
            assert!(!x.ok);
            assert_eq!(x.error.unwrap().message, "observe tool not supported");
        }
        other => panic!("unexpected result: {:?}", other),
    }
}
