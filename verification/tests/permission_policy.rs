use chatme_core::permission::{check_permission_level, PermissionLevel};
use chatme_core::value::{ParamMap, ParamValue};

fn params_with(name: &str, value: ParamValue) -> ParamMap {
    let mut p = ParamMap::new();
    p.push(name.to_string(), value);
    p
}

#[test]
fn kill_process_is_always_dangerous() {
    for pid in [0i64, 1, 1234, 99999, i64::MAX] {
        let p = params_with("pid", ParamValue::Int(pid));
        let r = check_permission_level("kill_process", &p);
        assert_eq!(r.level, PermissionLevel::Dangerous);
    }
    // even with no pid at all, or one of the wrong type
    let r = check_permission_level("kill_process", &ParamMap::new());
    assert_eq!(r.level, PermissionLevel::Dangerous);
    let p = params_with("pid", ParamValue::Str("twelve".to_string()));
    let r = check_permission_level("kill_process", &p);
    assert_eq!(r.level, PermissionLevel::Dangerous);
}

#[test]
fn kill_process_description_names_the_pid() {
    let p = params_with("pid", ParamValue::Int(4321));
    let r = check_permission_level("kill_process", &p);
    assert_eq!(r.operation, "Kill Process");
    assert_eq!(r.description, "Terminate process with PID: 4321");
    assert_eq!(r.details.len(), 1);
    assert_eq!(r.details[0].key, "pid");
    assert_eq!(r.details[0].value, "4321");
}

#[test]
fn destructive_command_is_dangerous() {
    let p = params_with("command", ParamValue::Str("rm -rf /".to_string()));
    let r = check_permission_level("execute_command", &p);
    assert_eq!(r.level, PermissionLevel::Dangerous);
}

#[test]
fn plain_command_is_moderate() {
    let p = params_with("command", ParamValue::Str("ls".to_string()));
    let r = check_permission_level("execute_command", &p);
    assert_eq!(r.level, PermissionLevel::Moderate);
    assert_eq!(r.operation, "Execute Terminal Command");
    assert_eq!(r.description, "Execute command: ls");
    assert_eq!(r.details.len(), 1);
    assert_eq!(r.details[0].key, "command");
    assert_eq!(r.details[0].value, "ls");
}

#[test]
fn denylist_matching_ignores_case() {
    for cmd in ["SUDO make me a sandwich", "run REGEDIT now", "dd if=/dev/sda"] {
        let p = params_with("command", ParamValue::Str(cmd.to_string()));
        let r = check_permission_level("execute_command", &p);
        assert_eq!(r.level, PermissionLevel::Dangerous, "command: {cmd}");
    }
}

#[test]
fn missing_command_is_dangerous() {
    let r = check_permission_level("execute_command", &ParamMap::new());
    assert_eq!(r.level, PermissionLevel::Dangerous);
    assert_eq!(r.description, "Execute unknown command");
    assert!(r.details.is_empty());
}

#[test]
fn classification_is_deterministic() {
    let make = || params_with("command", ParamValue::Str("make all".to_string()));
    let a = check_permission_level("execute_command", &make());
    let b = check_permission_level("execute_command", &make());
    assert_eq!(a.level, b.level);
    assert_eq!(a.description, b.description);
    assert_eq!(a.operation, b.operation);
}

#[test]
fn deleting_a_system_path_is_dangerous() {
    for path in ["/usr/bin/python", "/etc/passwd", "C:\\Windows\\system32", "/System/Library"] {
        let p = params_with("path", ParamValue::Str(path.to_string()));
        let r = check_permission_level("delete_file", &p);
        assert_eq!(r.level, PermissionLevel::Dangerous, "path: {path}");
    }
}

#[test]
fn deleting_an_ordinary_path_is_moderate() {
    let p = params_with("path", ParamValue::Str("/home/me/notes.txt".to_string()));
    let r = check_permission_level("delete_file", &p);
    assert_eq!(r.level, PermissionLevel::Moderate);
    assert_eq!(r.description, "Delete: /home/me/notes.txt");
    assert_eq!(r.details[0].key, "path");
}

#[test]
fn launching_an_application_is_moderate() {
    let p = params_with("path", ParamValue::Str("/usr/bin/gedit".to_string()));
    let r = check_permission_level("launch_app", &p);
    assert_eq!(r.level, PermissionLevel::Moderate);
    assert_eq!(r.details[0].key, "application");
}

#[test]
fn unknown_operation_defaults_to_safe() {
    let r = check_permission_level("levitate", &ParamMap::new());
    assert_eq!(r.level, PermissionLevel::Safe);
    assert_eq!(r.operation, "levitate");
    assert_eq!(r.description, "Unknown operation");
}
