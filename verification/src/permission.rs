//! The risk-tiered permission policy: a pure classification of an
//! operation name and its parameters into Safe, Moderate or Dangerous,
//! together with the human-readable context a consent prompt would show.

use vstd::prelude::*;
use vstd::string::*;
use crate::text::{contains_ci, is_prefix, to_chars, chars_contain_ci, chars_start_with, str_eq};
use crate::value::{Param, ParamMap, lookup, spec_as_str, json_of, value_to_json};

verus! {

/// The risk tier of an operation.
#[derive(PartialEq, Eq, Structural, Clone, Copy, Debug)]
pub enum PermissionLevel {
    /// No permission needed.
    Safe,
    /// Requires confirmation.
    Moderate,
    /// Requires explicit permission with a warning.
    Dangerous,
}

/// One contextual detail shown with a permission request.
pub struct Detail {
    pub key: String,
    pub value: String,
}

/// A computed permission classification; recomputed on every call and
/// never stored.
pub struct OperationPermission {
    pub operation: String,
    pub description: String,
    pub level: PermissionLevel,
    pub details: Vec<Detail>,
}

/// The key/value views of a detail list.
pub open spec fn detail_views(ds: Seq<Detail>) -> Seq<(Seq<char>, Seq<char>)> {
    ds.map_values(|d: Detail| (d.key@, d.value@))
}

/// A shell command that matches the fixed denylist of destructive
/// substrings, compared case-insensitively: root deletion, disk
/// formatting, partition-table edits, privilege escalation, registry
/// edits.
pub open spec fn dangerous_command(cmd: Seq<char>) -> bool {
    ||| contains_ci(cmd, "rm -rf"@)
    ||| contains_ci(cmd, "del /f"@)
    ||| contains_ci(cmd, "format"@)
    ||| contains_ci(cmd, "fdisk"@)
    ||| contains_ci(cmd, "dd if="@)
    ||| contains_ci(cmd, "sudo"@)
    ||| contains_ci(cmd, "admin"@)
    ||| contains_ci(cmd, "registry"@)
    ||| contains_ci(cmd, "regedit"@)
}

/// A path under one of the fixed OS/system directory prefixes.
pub open spec fn system_path(path: Seq<char>) -> bool {
    ||| is_prefix("C:\\Windows"@, path)
    ||| is_prefix("C:\\Program Files"@, path)
    ||| is_prefix("/usr"@, path)
    ||| is_prefix("/bin"@, path)
    ||| is_prefix("/etc"@, path)
    ||| is_prefix("/System"@, path)
    ||| is_prefix("/Library"@, path)
    ||| is_prefix("/Applications"@, path)
}

/// The risk tier of an operation with the given parameters.
///
/// Shell commands are Dangerous when they match the denylist, Moderate
/// otherwise; deletions are Dangerous when the target lies under a system
/// directory; process termination is Dangerous unconditionally; launching
/// an application is Moderate; an unknown operation name is Safe.
pub open spec fn spec_level(operation: Seq<char>, params: Seq<Param>) -> PermissionLevel {
    if operation == "execute_command"@ {
        match spec_as_str(lookup(params, "command"@)) {
            Some(cmd) => if dangerous_command(cmd) {
                PermissionLevel::Dangerous
            } else {
                PermissionLevel::Moderate
            },
            None => PermissionLevel::Dangerous,
        }
    } else if operation == "launch_app"@ {
        PermissionLevel::Moderate
    } else if operation == "delete_file"@ || operation == "delete_directory"@ {
        match spec_as_str(lookup(params, "path"@)) {
            Some(path) => if system_path(path) {
                PermissionLevel::Dangerous
            } else {
                PermissionLevel::Moderate
            },
            None => PermissionLevel::Dangerous,
        }
    } else if operation == "kill_process"@ {
        PermissionLevel::Dangerous
    } else {
        PermissionLevel::Safe
    }
}

/// The display name of an operation.
pub open spec fn spec_operation_label(operation: Seq<char>) -> Seq<char> {
    if operation == "execute_command"@ {
        "Execute Terminal Command"@
    } else if operation == "launch_app"@ {
        "Launch Application"@
    } else if operation == "delete_file"@ || operation == "delete_directory"@ {
        "Delete File/Directory"@
    } else if operation == "kill_process"@ {
        "Kill Process"@
    } else {
        operation
    }
}

/// The human-readable description of an operation with its parameters.
pub open spec fn spec_description(operation: Seq<char>, params: Seq<Param>) -> Seq<char> {
    if operation == "execute_command"@ {
        match spec_as_str(lookup(params, "command"@)) {
            Some(cmd) => "Execute command: "@ + cmd,
            None => "Execute unknown command"@,
        }
    } else if operation == "launch_app"@ {
        match spec_as_str(lookup(params, "path"@)) {
            Some(path) => "Launch application: "@ + path,
            None => "Launch unknown application"@,
        }
    } else if operation == "delete_file"@ || operation == "delete_directory"@ {
        match spec_as_str(lookup(params, "path"@)) {
            Some(path) => "Delete: "@ + path,
            None => "Delete unknown path"@,
        }
    } else if operation == "kill_process"@ {
        match lookup(params, "pid"@) {
            Some(v) => "Terminate process with PID: "@ + json_of(v),
            None => "Terminate unknown process"@,
        }
    } else {
        "Unknown operation"@
    }
}

/// The contextual details a consent prompt would show.
pub open spec fn spec_details(operation: Seq<char>, params: Seq<Param>) -> Seq<
    (Seq<char>, Seq<char>),
> {
    if operation == "execute_command"@ {
        match spec_as_str(lookup(params, "command"@)) {
            Some(cmd) => seq![("command"@, cmd)],
            None => Seq::empty(),
        }
    } else if operation == "launch_app"@ {
        match spec_as_str(lookup(params, "path"@)) {
            Some(path) => seq![("application"@, path)],
            None => Seq::empty(),
        }
    } else if operation == "delete_file"@ || operation == "delete_directory"@ {
        match spec_as_str(lookup(params, "path"@)) {
            Some(path) => seq![("path"@, path)],
            None => Seq::empty(),
        }
    } else if operation == "kill_process"@ {
        match lookup(params, "pid"@) {
            Some(v) => seq![("pid"@, json_of(v))],
            None => Seq::empty(),
        }
    } else {
        Seq::empty()
    }
}

fn one_detail(key: &str, value: String) -> (r: Vec<Detail>)
    ensures
        detail_views(r@) == seq![(key@, value@)],
{
    let mut r: Vec<Detail> = Vec::new();
    r.push(Detail { key: String::from_str(key), value });
    proof {
        assert(detail_views(r@) =~= seq![(key@, value@)]);
    }
    r
}

fn no_details() -> (r: Vec<Detail>)
    ensures
        detail_views(r@) == Seq::<(Seq<char>, Seq<char>)>::empty(),
{
    let r: Vec<Detail> = Vec::new();
    proof {
        assert(detail_views(r@) =~= Seq::<(Seq<char>, Seq<char>)>::empty());
    }
    r
}

/// Tests a command string against the destructive-command denylist.
pub fn command_matches_denylist(cmd: &str) -> (r: bool)
    ensures
        r == dangerous_command(cmd@),
{
    let text = to_chars(cmd);
    chars_contain_ci(&text, &to_chars("rm -rf")) || chars_contain_ci(&text, &to_chars("del /f"))
        || chars_contain_ci(&text, &to_chars("format")) || chars_contain_ci(
        &text,
        &to_chars("fdisk"),
    ) || chars_contain_ci(&text, &to_chars("dd if=")) || chars_contain_ci(
        &text,
        &to_chars("sudo"),
    ) || chars_contain_ci(&text, &to_chars("admin")) || chars_contain_ci(
        &text,
        &to_chars("registry"),
    ) || chars_contain_ci(&text, &to_chars("regedit"))
}

/// Tests whether a path lies under one of the system directory prefixes.
pub fn path_is_system(path: &str) -> (r: bool)
    ensures
        r == system_path(path@),
{
    let text = to_chars(path);
    chars_start_with(&text, &to_chars("C:\\Windows")) || chars_start_with(
        &text,
        &to_chars("C:\\Program Files"),
    ) || chars_start_with(&text, &to_chars("/usr")) || chars_start_with(&text, &to_chars("/bin"))
        || chars_start_with(&text, &to_chars("/etc")) || chars_start_with(
        &text,
        &to_chars("/System"),
    ) || chars_start_with(&text, &to_chars("/Library")) || chars_start_with(
        &text,
        &to_chars("/Applications"),
    )
}

/// Classifies an operation and its parameters into a risk tier, with the
/// context a consent prompt would show. Pure: the result depends on the
/// arguments alone.
pub fn check_permission_level(operation: &str, params: &ParamMap) -> (r: OperationPermission)
    ensures
        r.level == spec_level(operation@, params.entries@),
        r.operation@ == spec_operation_label(operation@),
        r.description@ == spec_description(operation@, params.entries@),
        detail_views(r.details@) == spec_details(operation@, params.entries@),
{
    if str_eq(operation, "execute_command") {
        match params.get_str("command") {
            Some(cmd) => {
                let level = if command_matches_denylist(cmd.as_str()) {
                    PermissionLevel::Dangerous
                } else {
                    PermissionLevel::Moderate
                };
                let mut description = String::from_str("Execute command: ");
                description.append(cmd.as_str());
                let details = one_detail("command", cmd.clone());
                OperationPermission {
                    operation: String::from_str("Execute Terminal Command"),
                    description,
                    level,
                    details,
                }
            },
            None => OperationPermission {
                operation: String::from_str("Execute Terminal Command"),
                description: String::from_str("Execute unknown command"),
                level: PermissionLevel::Dangerous,
                details: no_details(),
            },
        }
    } else if str_eq(operation, "launch_app") {
        match params.get_str("path") {
            Some(path) => {
                let mut description = String::from_str("Launch application: ");
                description.append(path.as_str());
                OperationPermission {
                    operation: String::from_str("Launch Application"),
                    description,
                    level: PermissionLevel::Moderate,
                    details: one_detail("application", path.clone()),
                }
            },
            None => OperationPermission {
                operation: String::from_str("Launch Application"),
                description: String::from_str("Launch unknown application"),
                level: PermissionLevel::Moderate,
                details: no_details(),
            },
        }
    } else if str_eq(operation, "delete_file") || str_eq(operation, "delete_directory") {
        match params.get_str("path") {
            Some(path) => {
                let level = if path_is_system(path.as_str()) {
                    PermissionLevel::Dangerous
                } else {
                    PermissionLevel::Moderate
                };
                let mut description = String::from_str("Delete: ");
                description.append(path.as_str());
                OperationPermission {
                    operation: String::from_str("Delete File/Directory"),
                    description,
                    level,
                    details: one_detail("path", path.clone()),
                }
            },
            None => OperationPermission {
                operation: String::from_str("Delete File/Directory"),
                description: String::from_str("Delete unknown path"),
                level: PermissionLevel::Dangerous,
                details: no_details(),
            },
        }
    } else if str_eq(operation, "kill_process") {
        match params.get("pid") {
            Some(v) => {
                let rendered = value_to_json(v);
                let mut description = String::from_str("Terminate process with PID: ");
                description.append(rendered.as_str());
                OperationPermission {
                    operation: String::from_str("Kill Process"),
                    description,
                    level: PermissionLevel::Dangerous,
                    details: one_detail("pid", rendered),
                }
            },
            None => OperationPermission {
                operation: String::from_str("Kill Process"),
                description: String::from_str("Terminate unknown process"),
                level: PermissionLevel::Dangerous,
                details: no_details(),
            },
        }
    } else {
        OperationPermission {
            operation: String::from_str(operation),
            description: String::from_str("Unknown operation"),
            level: PermissionLevel::Safe,
            details: no_details(),
        }
    }
}

/// Classification is a pure function: identical operation names and
/// identical parameter lists always classify into the identical tier.
pub proof fn lemma_classify_deterministic(
    op1: Seq<char>,
    params1: Seq<Param>,
    op2: Seq<char>,
    params2: Seq<Param>,
)
    requires
        op1 == op2,
        params1 == params2,
    ensures
        spec_level(op1, params1) == spec_level(op2, params2),
{
}

/// Terminating a process is classified Dangerous, whatever the
/// parameters hold.
pub proof fn lemma_kill_process_dangerous(params: Seq<Param>)
    ensures
        spec_level("kill_process"@, params) is Dangerous,
{
    reveal_strlit("kill_process");
    reveal_strlit("execute_command");
    reveal_strlit("launch_app");
    reveal_strlit("delete_file");
    reveal_strlit("delete_directory");
    assert("kill_process"@.len() == 12);
    assert("execute_command"@.len() == 15);
    assert("launch_app"@.len() == 10);
    assert("delete_file"@.len() == 11);
    assert("delete_directory"@.len() == 16);
}

} // verus!
