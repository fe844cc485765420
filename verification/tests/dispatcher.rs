use std::collections::HashMap;

use chatme_core::dispatch::{
    file_operation_success, launch_application_success, write_file_success, ActionPlan,
    EffectRequest,
};
use chatme_core::session::AgentSession;
use chatme_core::store::SessionStore;
use chatme_core::sysops::FileOperationType;
use chatme_core::value::{ParamMap, ParamValue};

fn session() -> AgentSession {
    AgentSession::new("s1".to_string(), "/tmp".to_string())
}

fn one(name: &str, value: ParamValue) -> ParamMap {
    let mut p = ParamMap::new();
    p.push(name.to_string(), value);
    p
}

#[test]
fn audit_log_counts_every_dispatch() {
    let mut s = session();
    // a mix of rejections and successes: each dispatch appends one entry
    let calls: Vec<(&str, ParamMap, Result<ParamValue, String>)> = vec![
        ("teleport", ParamMap::new(), Err("unknown action type: teleport".to_string())),
        ("read_file", ParamMap::new(), Err("Missing required parameter: path".to_string())),
        ("write_file", ParamMap::new(), Ok(ParamValue::Null)),
        ("get_processes", ParamMap::new(), Ok(ParamValue::List(Vec::new()))),
        ("kill_process", ParamMap::new(), Err("Missing required parameter: pid".to_string())),
    ];
    let mut expected_types = Vec::new();
    for (ty, params, outcome) in calls {
        expected_types.push(ty.to_string());
        s.record_outcome(ty, params, outcome);
    }
    assert_eq!(s.actions.len(), 5);
    for (k, ty) in expected_types.iter().enumerate() {
        assert_eq!(&s.actions[k].action_type, ty);
    }
}

#[test]
fn unknown_action_teleport_is_rejected_and_logged() {
    let mut s = session();
    let plan = s.plan_action("teleport", &ParamMap::new());
    let error = match plan {
        ActionPlan::Reject { error } => error,
        ActionPlan::Perform { .. } => panic!("an unknown action must not reach a handler"),
    };
    assert!(error.contains("unknown action type"));
    let action = s.record_outcome("teleport", ParamMap::new(), Err(error.clone()));
    assert!(!action.success);
    assert_eq!(action.error_message.as_deref(), Some(error.as_str()));
    assert!(action.error_message.as_deref().unwrap().contains("unknown action type"));
    assert_eq!(s.actions.len(), 1);
}

#[test]
fn change_directory_to_missing_path_leaves_cwd_and_logs_failure() {
    let mut s = session();
    let before = s.current_directory.clone();
    let params = one("path", ParamValue::Str("/no/such/dir".to_string()));
    let plan = s.plan_action("change_directory", &params);
    match plan {
        ActionPlan::Perform { effect: EffectRequest::ChangeDirectory { path } } => {
            assert_eq!(path, "/no/such/dir");
            // the collaborator reports that the directory does not exist
            let outcome = s.apply_change_directory(&path, false);
            let err = outcome.unwrap_err();
            assert_eq!(err, "Directory does not exist: /no/such/dir");
            let action = s.record_outcome("change_directory", params, Err(err));
            assert!(!action.success);
        },
        _ => panic!("change_directory with a path must plan an effect"),
    }
    assert_eq!(s.current_directory, before);
    assert_eq!(s.actions.len(), 1);
}

#[test]
fn change_directory_to_existing_path_updates_cwd() {
    let mut s = session();
    let outcome = s.apply_change_directory("/var/log", true);
    match outcome {
        Ok(ParamValue::Str(m)) => assert_eq!(m, "Changed directory to /var/log"),
        _ => panic!("a successful change must confirm the new directory"),
    }
    assert_eq!(s.current_directory, "/var/log");
}

#[test]
fn write_then_read_round_trip_returns_written_bytes() {
    let mut s = session();
    let mut disk: HashMap<String, String> = HashMap::new();

    let mut wp = ParamMap::new();
    wp.push("path".to_string(), ParamValue::Str("/tmp/note.txt".to_string()));
    wp.push("content".to_string(), ParamValue::Str("hello round trip".to_string()));
    match s.plan_action("write_file", &wp) {
        ActionPlan::Perform { effect: EffectRequest::WriteFile { path, content } } => {
            disk.insert(path.clone(), content.clone());
            let v = write_file_success(&path);
            s.record_outcome("write_file", wp, Ok(v));
        },
        _ => panic!("write_file with both parameters must plan an effect"),
    }

    let rp = one("path", ParamValue::Str("/tmp/note.txt".to_string()));
    match s.plan_action("read_file", &rp) {
        ActionPlan::Perform { effect: EffectRequest::ReadFile { path } } => {
            let stored = disk.get(&path).expect("the write must have stored the content");
            let action = s.record_outcome("read_file", rp, Ok(ParamValue::Str(stored.clone())));
            match &action.result {
                Some(ParamValue::Str(text)) => assert_eq!(text, "hello round trip"),
                _ => panic!("the read must return the written text"),
            }
            assert!(action.success);
        },
        _ => panic!("read_file with a path must plan an effect"),
    }
    assert_eq!(s.actions.len(), 2);
}

#[test]
fn missing_required_parameters_are_reported() {
    let s = session();
    let cases = [
        ("read_file", "Missing required parameter: path"),
        ("search_files", "Missing required parameter: pattern"),
        ("open_file", "Missing required parameter: path"),
        ("change_directory", "Missing required parameter: path"),
        ("launch_application", "Missing required parameter: path"),
        ("execute_command", "Missing required parameter: command"),
        ("kill_process", "Missing required parameter: pid"),
        ("file_operation", "Missing required parameter: operation_type"),
    ];
    for (ty, expected) in cases {
        match s.plan_action(ty, &ParamMap::new()) {
            ActionPlan::Reject { error } => assert_eq!(error, expected, "action: {ty}"),
            ActionPlan::Perform { .. } => panic!("{ty} without parameters must be rejected"),
        }
    }
}

#[test]
fn write_file_without_content_is_rejected() {
    let s = session();
    let p = one("path", ParamValue::Str("/tmp/x".to_string()));
    match s.plan_action("write_file", &p) {
        ActionPlan::Reject { error } => assert_eq!(error, "Missing required parameter: content"),
        _ => panic!("write_file without content must be rejected"),
    }
}

#[test]
fn dangerous_command_is_blocked_before_any_effect() {
    let s = session();
    let p = one("command", ParamValue::Str("sudo rm important".to_string()));
    match s.plan_action("execute_command", &p) {
        ActionPlan::Reject { error } => {
            assert_eq!(error, "Command requires explicit user permission: sudo rm important");
        },
        ActionPlan::Perform { .. } => panic!("a denylisted command must never reach the shell"),
    }
}

#[test]
fn plain_command_runs_in_the_session_directory() {
    let s = session();
    let p = one("command", ParamValue::Str("ls -l".to_string()));
    match s.plan_action("execute_command", &p) {
        ActionPlan::Perform { effect: EffectRequest::RunCommand { command, working_directory } } => {
            assert_eq!(command, "ls -l");
            assert_eq!(working_directory, "/tmp");
        },
        _ => panic!("a plain command must plan a run"),
    }
}

#[test]
fn kill_process_always_requires_permission() {
    let s = session();
    let p = one("pid", ParamValue::Int(77));
    match s.plan_action("kill_process", &p) {
        ActionPlan::Reject { error } => {
            assert_eq!(error, "Killing process requires explicit user permission: PID 77");
        },
        ActionPlan::Perform { .. } => panic!("kill_process must never plan an effect"),
    }
}

#[test]
fn list_directory_defaults() {
    let s = session();
    match s.plan_action("list_directory", &ParamMap::new()) {
        ActionPlan::Perform { effect: EffectRequest::ListDirectory { path, recursive } } => {
            assert_eq!(path, ".");
            assert!(!recursive);
        },
        _ => panic!("list_directory must plan an effect even without parameters"),
    }
}

#[test]
fn search_files_collects_every_option() {
    let s = session();
    let mut p = ParamMap::new();
    p.push("pattern".to_string(), ParamValue::Str("edge[0-9]+".to_string()));
    p.push("directory".to_string(), ParamValue::Str("/src".to_string()));
    p.push("file_extension".to_string(), ParamValue::Str("rs".to_string()));
    p.push("case_sensitive".to_string(), ParamValue::Bool(true));
    p.push("recursive".to_string(), ParamValue::Bool(false));
    p.push("max_results".to_string(), ParamValue::Int(25));
    match s.plan_action("search_files", &p) {
        ActionPlan::Perform {
            effect:
                EffectRequest::SearchFiles {
                    pattern,
                    directory,
                    file_extension,
                    case_sensitive,
                    recursive,
                    max_results,
                },
        } => {
            assert_eq!(pattern, "edge[0-9]+");
            assert_eq!(directory, "/src");
            assert_eq!(file_extension.as_deref(), Some("rs"));
            assert!(case_sensitive);
            assert!(!recursive);
            assert_eq!(max_results, Some(25));
        },
        _ => panic!("search_files with a pattern must plan an effect"),
    }
}

#[test]
fn launch_application_keeps_string_arguments_in_order() {
    let s = session();
    let mut p = ParamMap::new();
    p.push("path".to_string(), ParamValue::Str("/usr/bin/editor".to_string()));
    p.push(
        "arguments".to_string(),
        ParamValue::List(vec![
            ParamValue::Str("--fast".to_string()),
            ParamValue::Int(3),
            ParamValue::Str("file.txt".to_string()),
        ]),
    );
    match s.plan_action("launch_application", &p) {
        ActionPlan::Perform { effect: EffectRequest::LaunchApplication { path, arguments } } => {
            assert_eq!(path, "/usr/bin/editor");
            assert_eq!(arguments, Some(vec!["--fast".to_string(), "file.txt".to_string()]));
        },
        _ => panic!("launch_application with a path must plan an effect"),
    }
}

#[test]
fn file_operation_validation_and_gating() {
    let s = session();

    let mut copy_no_dest = ParamMap::new();
    copy_no_dest.push("operation_type".to_string(), ParamValue::Str("copy".to_string()));
    copy_no_dest.push("source".to_string(), ParamValue::Str("/a".to_string()));
    match s.plan_action("file_operation", &copy_no_dest) {
        ActionPlan::Reject { error } => assert_eq!(error, "Destination required for copy operation"),
        _ => panic!("a copy without destination must be rejected"),
    }

    let mut bad = ParamMap::new();
    bad.push("operation_type".to_string(), ParamValue::Str("shred".to_string()));
    bad.push("source".to_string(), ParamValue::Str("/a".to_string()));
    match s.plan_action("file_operation", &bad) {
        ActionPlan::Reject { error } => assert_eq!(error, "Invalid operation type: shred"),
        _ => panic!("an unknown operation type must be rejected"),
    }

    let mut sys_delete = ParamMap::new();
    sys_delete.push("operation_type".to_string(), ParamValue::Str("delete".to_string()));
    sys_delete.push("source".to_string(), ParamValue::Str("/etc/hosts".to_string()));
    match s.plan_action("file_operation", &sys_delete) {
        ActionPlan::Reject { error } => {
            assert_eq!(error, "Deleting a system path requires explicit user permission: /etc/hosts");
        },
        _ => panic!("deleting under a system prefix must be rejected"),
    }

    let mut mv = ParamMap::new();
    mv.push("operation_type".to_string(), ParamValue::Str("move".to_string()));
    mv.push("source".to_string(), ParamValue::Str("/a".to_string()));
    mv.push("destination".to_string(), ParamValue::Str("/b".to_string()));
    match s.plan_action("file_operation", &mv) {
        ActionPlan::Perform { effect: EffectRequest::FileOperation { operation } } => {
            assert_eq!(operation.operation_type, FileOperationType::Move);
            assert_eq!(operation.source, "/a");
            assert_eq!(operation.destination.as_deref(), Some("/b"));
            let v = file_operation_success(&operation);
            match v {
                ParamValue::Str(m) => assert_eq!(m, "Moved /a to /b"),
                _ => panic!("the success value must be text"),
            }
        },
        _ => panic!("a well-formed move must plan an effect"),
    }
}

#[test]
fn success_and_failure_records_carry_the_outcome() {
    let mut s = session();
    let a = s.record_outcome("write_file", ParamMap::new(), Ok(write_file_success("/tmp/x")));
    assert!(a.success);
    assert_eq!(a.description, "Successfully executed write_file");
    assert!(a.error_message.is_none());
    match &a.result {
        Some(ParamValue::Str(m)) => assert_eq!(m, "Successfully wrote to /tmp/x"),
        _ => panic!("the recorded result must be the success message"),
    }
    let b = s.record_outcome("read_file", ParamMap::new(), Err("boom".to_string()));
    assert!(!b.success);
    assert_eq!(b.description, "Failed to execute read_file: boom");
    assert_eq!(b.error_message.as_deref(), Some("boom"));
    assert!(b.result.is_none());
}

#[test]
fn launch_success_value_carries_the_pid() {
    match launch_application_success("/usr/bin/editor", 4242) {
        ParamValue::Obj(fields) => {
            assert_eq!(fields.len(), 3);
            assert_eq!(fields[0].name, "success");
            assert!(matches!(fields[0].value, ParamValue::Bool(true)));
            assert_eq!(fields[1].name, "pid");
            assert!(matches!(fields[1].value, ParamValue::Int(4242)));
            assert_eq!(fields[2].name, "message");
            match &fields[2].value {
                ParamValue::Str(m) => assert_eq!(m, "Launched application: /usr/bin/editor"),
                _ => panic!("the message field must be text"),
            }
        },
        _ => panic!("the launch success value must be an object"),
    }
}

#[test]
fn store_creates_sessions_on_demand_and_keeps_them() {
    let mut store = SessionStore::new();
    assert!(store.get("a").is_none());
    let i = store.get_or_create("a", "/home");
    assert_eq!(i, 0);
    assert_eq!(store.sessions[i].id, "a");
    assert_eq!(store.sessions[i].current_directory, "/home");
    assert!(store.sessions[i].active);
    assert!(store.sessions[i].actions.is_empty());
    assert_eq!(store.sessions[i].capabilities.len(), 13);

    store.sessions[i].current_directory = "/elsewhere".to_string();
    let j = store.get_or_create("a", "/home");
    assert_eq!(j, i);
    assert_eq!(store.sessions[j].current_directory, "/elsewhere");

    let k = store.get_or_create("b", "/home");
    assert_eq!(k, 1);
    assert!(store.get("a").is_some());
    assert!(store.get("b").is_some());
    assert!(store.get("c").is_none());
}
