//! The capability dispatcher's decision stage. Planning an action —
//! routing the name, validating parameters, applying the permission
//! policy — is pure and fully specified here; the side effect itself is
//! performed by the caller, which then records the outcome into the
//! session's audit log.

use vstd::prelude::*;
use vstd::string::*;
use crate::permission::{dangerous_command, system_path, command_matches_denylist, path_is_system};
use crate::session::AgentSession;
use crate::sysops::{FileOperationType, FileSystemOperation};
use crate::text::{str_eq, u64_to_dec, dec_digits, views_of};
use crate::value::{Param, ParamMap, ParamValue, lookup, spec_as_str, spec_as_bool, spec_as_u64};

verus! {

/// The side effect a planned action asks its caller to perform.
pub enum EffectRequest {
    ListDirectory { path: String, recursive: bool },
    ReadFile { path: String },
    WriteFile { path: String, content: String },
    SearchFiles {
        pattern: String,
        directory: String,
        file_extension: Option<String>,
        case_sensitive: bool,
        recursive: bool,
        max_results: Option<u64>,
    },
    OpenFile { path: String },
    ChangeDirectory { path: String },
    LaunchApplication { path: String, arguments: Option<Vec<String>> },
    ListInstalledApps,
    RunCommand { command: String, working_directory: String },
    FileOperation { operation: FileSystemOperation },
    ListProcesses,
}

/// What planning an action decided.
pub enum ActionPlan {
    /// The action is refused without any effect; the error becomes the
    /// failed action's message.
    Reject { error: String },
    /// The caller should perform this effect and record its outcome.
    Perform { effect: EffectRequest },
}

/// The mathematical image of an effect request.
pub enum SpecEffect {
    ListDirectory { path: Seq<char>, recursive: bool },
    ReadFile { path: Seq<char> },
    WriteFile { path: Seq<char>, content: Seq<char> },
    SearchFiles {
        pattern: Seq<char>,
        directory: Seq<char>,
        file_extension: Option<Seq<char>>,
        case_sensitive: bool,
        recursive: bool,
        max_results: Option<u64>,
    },
    OpenFile { path: Seq<char> },
    ChangeDirectory { path: Seq<char> },
    LaunchApplication { path: Seq<char>, arguments: Option<Seq<Seq<char>>> },
    ListInstalledApps,
    RunCommand { command: Seq<char>, working_directory: Seq<char> },
    FileOperation {
        operation_type: FileOperationType,
        source: Seq<char>,
        destination: Option<Seq<char>>,
        recursive: bool,
    },
    ListProcesses,
}

/// The mathematical image of a plan.
pub enum SpecPlan {
    Reject(Seq<char>),
    Perform(SpecEffect),
}

/// The view of an optional string.
pub open spec fn opt_view(o: Option<String>) -> Option<Seq<char>> {
    match o {
        Some(s) => Some(s@),
        None => None,
    }
}

impl View for EffectRequest {
    type V = SpecEffect;

    open spec fn view(&self) -> SpecEffect {
        match *self {
            EffectRequest::ListDirectory { path, recursive } => SpecEffect::ListDirectory {
                path: path@,
                recursive,
            },
            EffectRequest::ReadFile { path } => SpecEffect::ReadFile { path: path@ },
            EffectRequest::WriteFile { path, content } => SpecEffect::WriteFile {
                path: path@,
                content: content@,
            },
            EffectRequest::SearchFiles {
                pattern,
                directory,
                file_extension,
                case_sensitive,
                recursive,
                max_results,
            } => SpecEffect::SearchFiles {
                pattern: pattern@,
                directory: directory@,
                file_extension: opt_view(file_extension),
                case_sensitive,
                recursive,
                max_results,
            },
            EffectRequest::OpenFile { path } => SpecEffect::OpenFile { path: path@ },
            EffectRequest::ChangeDirectory { path } => SpecEffect::ChangeDirectory { path: path@ },
            EffectRequest::LaunchApplication { path, arguments } => {
                SpecEffect::LaunchApplication {
                    path: path@,
                    arguments: match arguments {
                        Some(v) => Some(views_of(v@)),
                        None => None,
                    },
                }
            },
            EffectRequest::ListInstalledApps => SpecEffect::ListInstalledApps,
            EffectRequest::RunCommand { command, working_directory } => SpecEffect::RunCommand {
                command: command@,
                working_directory: working_directory@,
            },
            EffectRequest::FileOperation { operation } => SpecEffect::FileOperation {
                operation_type: operation.operation_type,
                source: operation.source@,
                destination: opt_view(operation.destination),
                recursive: operation.recursive,
            },
            EffectRequest::ListProcesses => SpecEffect::ListProcesses,
        }
    }
}

impl View for ActionPlan {
    type V = SpecPlan;

    open spec fn view(&self) -> SpecPlan {
        match self {
            ActionPlan::Reject { error } => SpecPlan::Reject(error@),
            ActionPlan::Perform { effect } => SpecPlan::Perform(effect@),
        }
    }
}

/// The string parameter `name`, or a default.
pub open spec fn str_or(params: Seq<Param>, name: Seq<char>, dflt: Seq<char>) -> Seq<char> {
    match spec_as_str(lookup(params, name)) {
        Some(s) => s,
        None => dflt,
    }
}

/// The boolean parameter `name`, or a default.
pub open spec fn bool_or(params: Seq<Param>, name: Seq<char>, dflt: bool) -> bool {
    match spec_as_bool(lookup(params, name)) {
        Some(b) => b,
        None => dflt,
    }
}

/// The error reported for an absent required parameter.
pub open spec fn missing_param_msg(name: Seq<char>) -> Seq<char> {
    "Missing required parameter: "@ + name
}

/// The string items of a value list, in order; other items are dropped.
pub open spec fn spec_str_items(items: Seq<ParamValue>) -> Seq<Seq<char>>
    decreases items.len(),
{
    if items.len() == 0 {
        Seq::empty()
    } else {
        let rest = spec_str_items(items.drop_last());
        match items.last() {
            ParamValue::Str(s) => rest.push(s@),
            _ => rest,
        }
    }
}

/// The argument list handed to a launched application: the string items
/// of the `arguments` parameter, or nothing when it is absent or not a
/// list.
pub open spec fn spec_arguments(params: Seq<Param>) -> Option<Seq<Seq<char>>> {
    match lookup(params, "arguments"@) {
        Some(ParamValue::List(items)) => Some(spec_str_items(items@)),
        _ => None,
    }
}

/// What planning decides for one action name, parameter list and current
/// working directory.
///
/// Required parameters are validated first; an unknown action name is
/// rejected outright; a shell command matching the destructive denylist,
/// a deletion under a system path, and any process termination are
/// rejected by the permission policy without performing the effect.
pub open spec fn spec_plan(action: Seq<char>, params: Seq<Param>, cwd: Seq<char>) -> SpecPlan {
    if action == "list_directory"@ {
        SpecPlan::Perform(
            SpecEffect::ListDirectory {
                path: str_or(params, "path"@, "."@),
                recursive: bool_or(params, "recursive"@, false),
            },
        )
    } else if action == "read_file"@ {
        match spec_as_str(lookup(params, "path"@)) {
            Some(path) => SpecPlan::Perform(SpecEffect::ReadFile { path }),
            None => SpecPlan::Reject(missing_param_msg("path"@)),
        }
    } else if action == "write_file"@ {
        match spec_as_str(lookup(params, "path"@)) {
            Some(path) => match spec_as_str(lookup(params, "content"@)) {
                Some(content) => SpecPlan::Perform(SpecEffect::WriteFile { path, content }),
                None => SpecPlan::Reject(missing_param_msg("content"@)),
            },
            None => SpecPlan::Reject(missing_param_msg("path"@)),
        }
    } else if action == "search_files"@ {
        match spec_as_str(lookup(params, "pattern"@)) {
            Some(pattern) => SpecPlan::Perform(
                SpecEffect::SearchFiles {
                    pattern,
                    directory: str_or(params, "directory"@, "."@),
                    file_extension: spec_as_str(lookup(params, "file_extension"@)),
                    case_sensitive: bool_or(params, "case_sensitive"@, false),
                    recursive: bool_or(params, "recursive"@, true),
                    max_results: spec_as_u64(lookup(params, "max_results"@)),
                },
            ),
            None => SpecPlan::Reject(missing_param_msg("pattern"@)),
        }
    } else if action == "open_file"@ {
        match spec_as_str(lookup(params, "path"@)) {
            Some(path) => SpecPlan::Perform(SpecEffect::OpenFile { path }),
            None => SpecPlan::Reject(missing_param_msg("path"@)),
        }
    } else if action == "change_directory"@ {
        match spec_as_str(lookup(params, "path"@)) {
            Some(path) => SpecPlan::Perform(SpecEffect::ChangeDirectory { path }),
            None => SpecPlan::Reject(missing_param_msg("path"@)),
        }
    } else if action == "launch_application"@ {
        match spec_as_str(lookup(params, "path"@)) {
            Some(path) => SpecPlan::Perform(
                SpecEffect::LaunchApplication { path, arguments: spec_arguments(params) },
            ),
            None => SpecPlan::Reject(missing_param_msg("path"@)),
        }
    } else if action == "get_installed_apps"@ {
        SpecPlan::Perform(SpecEffect::ListInstalledApps)
    } else if action == "execute_command"@ {
        match spec_as_str(lookup(params, "command"@)) {
            Some(command) => if dangerous_command(command) {
                SpecPlan::Reject("Command requires explicit user permission: "@ + command)
            } else {
                SpecPlan::Perform(
                    SpecEffect::RunCommand {
                        command,
                        working_directory: str_or(params, "working_directory"@, cwd),
                    },
                )
            },
            None => SpecPlan::Reject(missing_param_msg("command"@)),
        }
    } else if action == "file_operation"@ {
        spec_plan_file_operation(params)
    } else if action == "get_processes"@ {
        SpecPlan::Perform(SpecEffect::ListProcesses)
    } else if action == "kill_process"@ {
        match spec_as_u64(lookup(params, "pid"@)) {
            Some(pid) => SpecPlan::Reject(
                "Killing process requires explicit user permission: PID "@ + dec_digits(pid as int),
            ),
            None => SpecPlan::Reject(missing_param_msg("pid"@)),
        }
    } else {
        SpecPlan::Reject("unknown action type: "@ + action)
    }
}

/// The plan of a generic file operation: the kind and the source are
/// required; copy, move and rename need a destination; a deletion whose
/// source lies under a system path is refused by the permission policy.
pub open spec fn spec_plan_file_operation(params: Seq<Param>) -> SpecPlan {
    match spec_as_str(lookup(params, "operation_type"@)) {
        Some(op_name) => match spec_as_str(lookup(params, "source"@)) {
            Some(source) => {
                let destination = spec_as_str(lookup(params, "destination"@));
                let recursive = bool_or(params, "recursive"@, false);
                if op_name == "copy"@ {
                    if destination is None {
                        SpecPlan::Reject("Destination required for copy operation"@)
                    } else {
                        SpecPlan::Perform(
                            SpecEffect::FileOperation {
                                operation_type: FileOperationType::Copy,
                                source,
                                destination,
                                recursive,
                            },
                        )
                    }
                } else if op_name == "move"@ {
                    if destination is None {
                        SpecPlan::Reject("Destination required for move operation"@)
                    } else {
                        SpecPlan::Perform(
                            SpecEffect::FileOperation {
                                operation_type: FileOperationType::Move,
                                source,
                                destination,
                                recursive,
                            },
                        )
                    }
                } else if op_name == "delete"@ {
                    if system_path(source) {
                        SpecPlan::Reject(
                            "Deleting a system path requires explicit user permission: "@ + source,
                        )
                    } else {
                        SpecPlan::Perform(
                            SpecEffect::FileOperation {
                                operation_type: FileOperationType::Delete,
                                source,
                                destination,
                                recursive,
                            },
                        )
                    }
                } else if op_name == "create_directory"@ {
                    SpecPlan::Perform(
                        SpecEffect::FileOperation {
                            operation_type: FileOperationType::CreateDirectory,
                            source,
                            destination,
                            recursive,
                        },
                    )
                } else if op_name == "rename"@ {
                    if destination is None {
                        SpecPlan::Reject("New name required for rename operation"@)
                    } else {
                        SpecPlan::Perform(
                            SpecEffect::FileOperation {
                                operation_type: FileOperationType::Rename,
                                source,
                                destination,
                                recursive,
                            },
                        )
                    }
                } else {
                    SpecPlan::Reject("Invalid operation type: "@ + op_name)
                }
            },
            None => SpecPlan::Reject(missing_param_msg("source"@)),
        },
        None => SpecPlan::Reject(missing_param_msg("operation_type"@)),
    }
}

fn missing_param(name: &str) -> (r: String)
    ensures
        r@ == missing_param_msg(name@),
{
    let mut m = String::from_str("Missing required parameter: ");
    m.append(name);
    m
}

fn reject(error: String) -> (r: ActionPlan)
    ensures
        r@ == SpecPlan::Reject(error@),
{
    ActionPlan::Reject { error }
}

fn str_param_or(params: &ParamMap, name: &str, dflt: &str) -> (r: String)
    ensures
        r@ == str_or(params.entries@, name@, dflt@),
{
    match params.get_str(name) {
        Some(s) => s.clone(),
        None => String::from_str(dflt),
    }
}

fn bool_param_or(params: &ParamMap, name: &str, dflt: bool) -> (r: bool)
    ensures
        r == bool_or(params.entries@, name@, dflt),
{
    match params.get_bool(name) {
        Some(b) => b,
        None => dflt,
    }
}

fn argument_list(params: &ParamMap) -> (r: Option<Vec<String>>)
    ensures
        match r {
            Some(v) => spec_arguments(params.entries@) == Some(views_of(v@)),
            None => spec_arguments(params.entries@) is None,
        },
{
    match params.get("arguments") {
        Some(ParamValue::List(items)) => {
            let n = items.len();
            let mut out: Vec<String> = Vec::new();
            let mut i: usize = 0;
            proof {
                assert(views_of(out@) =~= spec_str_items(items@.subrange(0, 0)));
            }
            while i < n
                invariant
                    n == items@.len(),
                    i <= n,
                    views_of(out@) == spec_str_items(items@.subrange(0, i as int)),
                decreases n - i,
            {
                proof {
                    assert(items@.subrange(0, i + 1 as int).drop_last() =~= items@.subrange(
                        0,
                        i as int,
                    ));
                    assert(items@.subrange(0, i + 1 as int).last() == items@[i as int]);
                }
                match &items[i] {
                    ParamValue::Str(s) => {
                        let c = s.clone();
                        proof {
                            assert(views_of(out@.push(c)) =~= views_of(out@).push(c@));
                        }
                        out.push(c);
                    },
                    _ => {},
                }
                i += 1;
            }
            proof {
                assert(items@.subrange(0, n as int) =~= items@);
            }
            Some(out)
        },
        _ => None,
    }
}

impl AgentSession {
    /// Plans one action against this session: resolves the action name,
    /// validates its parameters, and applies the permission policy. The
    /// result either carries the effect the caller should perform, or the
    /// rejection to record; nothing is executed and nothing is recorded
    /// here.
    pub fn plan_action(&self, action_type: &str, parameters: &ParamMap) -> (r: ActionPlan)
        ensures
            r@ == spec_plan(action_type@, parameters.entries@, self.current_directory@),
    {
        if str_eq(action_type, "list_directory") {
            let path = str_param_or(parameters, "path", ".");
            let recursive = bool_param_or(parameters, "recursive", false);
            ActionPlan::Perform { effect: EffectRequest::ListDirectory { path, recursive } }
        } else if str_eq(action_type, "read_file") {
            match parameters.get_str("path") {
                Some(path) => ActionPlan::Perform {
                    effect: EffectRequest::ReadFile { path: path.clone() },
                },
                None => reject(missing_param("path")),
            }
        } else if str_eq(action_type, "write_file") {
            match parameters.get_str("path") {
                Some(path) => {
                    let path = path.clone();
                    match parameters.get_str("content") {
                        Some(content) => ActionPlan::Perform {
                            effect: EffectRequest::WriteFile { path, content: content.clone() },
                        },
                        None => reject(missing_param("content")),
                    }
                },
                None => reject(missing_param("path")),
            }
        } else if str_eq(action_type, "search_files") {
            match parameters.get_str("pattern") {
                Some(pattern) => {
                    let pattern = pattern.clone();
                    let directory = str_param_or(parameters, "directory", ".");
                    let file_extension = match parameters.get_str("file_extension") {
                        Some(s) => Some(s.clone()),
                        None => None,
                    };
                    let case_sensitive = bool_param_or(parameters, "case_sensitive", false);
                    let recursive = bool_param_or(parameters, "recursive", true);
                    let max_results = parameters.get_u64("max_results");
                    ActionPlan::Perform {
                        effect: EffectRequest::SearchFiles {
                            pattern,
                            directory,
                            file_extension,
                            case_sensitive,
                            recursive,
                            max_results,
                        },
                    }
                },
                None => reject(missing_param("pattern")),
            }
        } else if str_eq(action_type, "open_file") {
            match parameters.get_str("path") {
                Some(path) => ActionPlan::Perform {
                    effect: EffectRequest::OpenFile { path: path.clone() },
                },
                None => reject(missing_param("path")),
            }
        } else if str_eq(action_type, "change_directory") {
            match parameters.get_str("path") {
                Some(path) => ActionPlan::Perform {
                    effect: EffectRequest::ChangeDirectory { path: path.clone() },
                },
                None => reject(missing_param("path")),
            }
        } else if str_eq(action_type, "launch_application") {
            match parameters.get_str("path") {
                Some(path) => {
                    let path = path.clone();
                    let arguments = argument_list(parameters);
                    ActionPlan::Perform {
                        effect: EffectRequest::LaunchApplication { path, arguments },
                    }
                },
                None => reject(missing_param("path")),
            }
        } else if str_eq(action_type, "get_installed_apps") {
            ActionPlan::Perform { effect: EffectRequest::ListInstalledApps }
        } else if str_eq(action_type, "execute_command") {
            match parameters.get_str("command") {
                Some(command) => {
                    let command = command.clone();
                    if command_matches_denylist(command.as_str()) {
                        let mut e = String::from_str(
                            "Command requires explicit user permission: ",
                        );
                        e.append(command.as_str());
                        reject(e)
                    } else {
                        let working_directory = str_param_or(
                            parameters,
                            "working_directory",
                            self.current_directory.as_str(),
                        );
                        ActionPlan::Perform {
                            effect: EffectRequest::RunCommand { command, working_directory },
                        }
                    }
                },
                None => reject(missing_param("command")),
            }
        } else if str_eq(action_type, "file_operation") {
            plan_file_operation(parameters)
        } else if str_eq(action_type, "get_processes") {
            ActionPlan::Perform { effect: EffectRequest::ListProcesses }
        } else if str_eq(action_type, "kill_process") {
            match parameters.get_u64("pid") {
                Some(pid) => {
                    let mut e = String::from_str(
                        "Killing process requires explicit user permission: PID ",
                    );
                    let d = u64_to_dec(pid);
                    e.append(d.as_str());
                    reject(e)
                },
                None => reject(missing_param("pid")),
            }
        } else {
            let mut e = String::from_str("unknown action type: ");
            e.append(action_type);
            reject(e)
        }
    }
}

fn plan_file_operation(parameters: &ParamMap) -> (r: ActionPlan)
    ensures
        r@ == spec_plan_file_operation(parameters.entries@),
{
    let op_name = match parameters.get_str("operation_type") {
        Some(s) => s.clone(),
        None => {
            return reject(missing_param("operation_type"));
        },
    };
    let source = match parameters.get_str("source") {
        Some(s) => s.clone(),
        None => {
            return reject(missing_param("source"));
        },
    };
    let destination = match parameters.get_str("destination") {
        Some(s) => Some(s.clone()),
        None => None,
    };
    let recursive = bool_param_or(parameters, "recursive", false);
    if str_eq(op_name.as_str(), "copy") {
        if destination.is_none() {
            reject(String::from_str("Destination required for copy operation"))
        } else {
            ActionPlan::Perform {
                effect: EffectRequest::FileOperation {
                    operation: FileSystemOperation {
                        operation_type: FileOperationType::Copy,
                        source,
                        destination,
                        recursive,
                    },
                },
            }
        }
    } else if str_eq(op_name.as_str(), "move") {
        if destination.is_none() {
            reject(String::from_str("Destination required for move operation"))
        } else {
            ActionPlan::Perform {
                effect: EffectRequest::FileOperation {
                    operation: FileSystemOperation {
                        operation_type: FileOperationType::Move,
                        source,
                        destination,
                        recursive,
                    },
                },
            }
        }
    } else if str_eq(op_name.as_str(), "delete") {
        if path_is_system(source.as_str()) {
            let mut e = String::from_str(
                "Deleting a system path requires explicit user permission: ",
            );
            e.append(source.as_str());
            reject(e)
        } else {
            ActionPlan::Perform {
                effect: EffectRequest::FileOperation {
                    operation: FileSystemOperation {
                        operation_type: FileOperationType::Delete,
                        source,
                        destination,
                        recursive,
                    },
                },
            }
        }
    } else if str_eq(op_name.as_str(), "create_directory") {
        ActionPlan::Perform {
            effect: EffectRequest::FileOperation {
                operation: FileSystemOperation {
                    operation_type: FileOperationType::CreateDirectory,
                    source,
                    destination,
                    recursive,
                },
            },
        }
    } else if str_eq(op_name.as_str(), "rename") {
        if destination.is_none() {
            reject(String::from_str("New name required for rename operation"))
        } else {
            ActionPlan::Perform {
                effect: EffectRequest::FileOperation {
                    operation: FileSystemOperation {
                        operation_type: FileOperationType::Rename,
                        source,
                        destination,
                        recursive,
                    },
                },
            }
        }
    } else {
        let mut e = String::from_str("Invalid operation type: ");
        e.append(op_name.as_str());
        reject(e)
    }
}

/// The value recorded for a finished file write.
pub fn write_file_success(path: &str) -> (r: ParamValue)
    ensures
        r matches ParamValue::Str(s) && s@ == "Successfully wrote to "@ + path@,
{
    let mut m = String::from_str("Successfully wrote to ");
    m.append(path);
    ParamValue::Str(m)
}

/// The value recorded for a file handed to the default application.
pub fn open_file_success(path: &str) -> (r: ParamValue)
    ensures
        r matches ParamValue::Str(s) && s@ == "Opened "@ + path@ + " with default application"@,
{
    let mut m = String::from_str("Opened ");
    m.append(path);
    m.append(" with default application");
    ParamValue::Str(m)
}

/// The value recorded for a launched application: its process id and a
/// confirmation message.
pub fn launch_application_success(path: &str, pid: u32) -> (r: ParamValue)
    ensures
        r matches ParamValue::Obj(fields) && {
            &&& fields@.len() == 3
            &&& fields@[0].name@ == "success"@
            &&& fields@[0].value == ParamValue::Bool(true)
            &&& fields@[1].name@ == "pid"@
            &&& fields@[1].value == ParamValue::Int(pid as i64)
            &&& fields@[2].name@ == "message"@
            &&& fields@[2].value matches ParamValue::Str(m) && m@ == "Launched application: "@
                + path@
        },
{
    let mut m = String::from_str("Launched application: ");
    m.append(path);
    let mut fields: Vec<Param> = Vec::new();
    fields.push(Param { name: String::from_str("success"), value: ParamValue::Bool(true) });
    fields.push(Param { name: String::from_str("pid"), value: ParamValue::Int(pid as i64) });
    fields.push(Param { name: String::from_str("message"), value: ParamValue::Str(m) });
    ParamValue::Obj(fields)
}

/// The message recorded for a finished generic file operation.
pub open spec fn spec_file_operation_message(
    operation_type: FileOperationType,
    source: Seq<char>,
    destination: Option<Seq<char>>,
) -> Seq<char> {
    match operation_type {
        FileOperationType::Copy => "Copied "@ + source + " to "@ + destination->Some_0,
        FileOperationType::Move => "Moved "@ + source + " to "@ + destination->Some_0,
        FileOperationType::Delete => "Deleted "@ + source,
        FileOperationType::CreateDirectory => "Created directory "@ + source,
        FileOperationType::Rename => "Renamed "@ + source + " to "@ + destination->Some_0,
    }
}

/// The value recorded for a finished generic file operation.
pub fn file_operation_success(operation: &FileSystemOperation) -> (r: ParamValue)
    requires
        !(operation.operation_type is Delete || operation.operation_type is CreateDirectory)
            ==> operation.destination is Some,
    ensures
        r matches ParamValue::Str(s) && s@ == spec_file_operation_message(
            operation.operation_type,
            operation.source@,
            crate::dispatch::opt_view(operation.destination),
        ),
{
    match operation.operation_type {
        FileOperationType::Copy => {
            let mut m = String::from_str("Copied ");
            m.append(operation.source.as_str());
            m.append(" to ");
            match &operation.destination {
                Some(d) => m.append(d.as_str()),
                None => {},
            }
            ParamValue::Str(m)
        },
        FileOperationType::Move => {
            let mut m = String::from_str("Moved ");
            m.append(operation.source.as_str());
            m.append(" to ");
            match &operation.destination {
                Some(d) => m.append(d.as_str()),
                None => {},
            }
            ParamValue::Str(m)
        },
        FileOperationType::Delete => {
            let mut m = String::from_str("Deleted ");
            m.append(operation.source.as_str());
            ParamValue::Str(m)
        },
        FileOperationType::CreateDirectory => {
            let mut m = String::from_str("Created directory ");
            m.append(operation.source.as_str());
            ParamValue::Str(m)
        },
        FileOperationType::Rename => {
            let mut m = String::from_str("Renamed ");
            m.append(operation.source.as_str());
            m.append(" to ");
            match &operation.destination {
                Some(d) => m.append(d.as_str()),
                None => {},
            }
            ParamValue::Str(m)
        },
    }
}

/// Write-then-read round trip: planning a write hands the collaborator
/// exactly the given path and content, and planning a read of the same
/// path asks for exactly that path — so a collaborator that returns
/// what was last written at a path completes the read with exactly the
/// written content, whatever else the parameter lists hold.
pub proof fn lemma_write_read_round_trip(
    params_w: Seq<Param>,
    params_r: Seq<Param>,
    cwd: Seq<char>,
    path: Seq<char>,
    content: Seq<char>,
)
    requires
        spec_as_str(lookup(params_w, "path"@)) == Some(path),
        spec_as_str(lookup(params_w, "content"@)) == Some(content),
        spec_as_str(lookup(params_r, "path"@)) == Some(path),
    ensures
        spec_plan("write_file"@, params_w, cwd) == SpecPlan::Perform(
            SpecEffect::WriteFile { path, content },
        ),
        spec_plan("read_file"@, params_r, cwd) == SpecPlan::Perform(
            SpecEffect::ReadFile { path },
        ),
{
    reveal_strlit("list_directory");
    reveal_strlit("read_file");
    reveal_strlit("write_file");
    assert("list_directory"@.len() == 14);
    assert("read_file"@.len() == 9);
    assert("write_file"@.len() == 10);
}

/// An unknown action name is rejected outright, with an error that
/// names it; no handler is chosen and no effect is requested.
pub proof fn lemma_unknown_action_rejected(action: Seq<char>, params: Seq<Param>, cwd: Seq<char>)
    requires
        action != "list_directory"@,
        action != "read_file"@,
        action != "write_file"@,
        action != "search_files"@,
        action != "open_file"@,
        action != "change_directory"@,
        action != "launch_application"@,
        action != "get_installed_apps"@,
        action != "execute_command"@,
        action != "file_operation"@,
        action != "get_processes"@,
        action != "kill_process"@,
    ensures
        spec_plan(action, params, cwd) == SpecPlan::Reject("unknown action type: "@ + action),
{
}

/// A Dangerous classification never reaches an effect: planning a shell
/// command that matches the destructive denylist, a deletion under a
/// system path, or any process termination yields a rejection, so the
/// dispatcher performs nothing for it.
pub proof fn lemma_dangerous_never_performs(action: Seq<char>, params: Seq<Param>, cwd: Seq<char>)
    ensures
        action == "execute_command"@ && (match spec_as_str(lookup(params, "command"@)) {
            Some(cmd) => dangerous_command(cmd),
            None => false,
        }) ==> spec_plan(action, params, cwd) is Reject,
        action == "kill_process"@ ==> spec_plan(action, params, cwd) is Reject,
        action == "file_operation"@ && (match (
            spec_as_str(lookup(params, "operation_type"@)),
            spec_as_str(lookup(params, "source"@)),
        ) {
            (Some(op), Some(src)) => op == "delete"@ && system_path(src),
            _ => false,
        }) ==> spec_plan(action, params, cwd) is Reject,
{
    reveal_strlit("list_directory");
    reveal_strlit("read_file");
    reveal_strlit("write_file");
    reveal_strlit("search_files");
    reveal_strlit("open_file");
    reveal_strlit("change_directory");
    reveal_strlit("launch_application");
    reveal_strlit("get_installed_apps");
    reveal_strlit("execute_command");
    reveal_strlit("file_operation");
    reveal_strlit("get_processes");
    reveal_strlit("kill_process");
    reveal_strlit("copy");
    reveal_strlit("move");
    reveal_strlit("delete");
    reveal_strlit("create_directory");
    reveal_strlit("rename");
    assert("list_directory"@.len() == 14);
    assert("read_file"@.len() == 9);
    assert("write_file"@.len() == 10);
    assert("search_files"@.len() == 12);
    assert("open_file"@.len() == 9);
    assert("change_directory"@.len() == 16);
    assert("launch_application"@.len() == 18);
    assert("get_installed_apps"@.len() == 18);
    assert("execute_command"@.len() == 15);
    assert("file_operation"@.len() == 14);
    assert("get_processes"@.len() == 13);
    assert("kill_process"@.len() == 12);
    assert("copy"@.len() == 4);
    assert("move"@.len() == 4);
    assert("delete"@.len() == 6);
    assert("create_directory"@.len() == 16);
    assert("rename"@.len() == 6);
    assert("kill_process"@[0] == 'k' && "search_files"@[0] == 's');
    assert("file_operation"@[0] == 'f' && "list_directory"@[0] == 'l');
    assert("delete"@[0] == 'd' && "rename"@[0] == 'r');
    assert("copy"@[0] == 'c' && "move"@[0] == 'm');
}

} // verus!
