//! Per-session agent state: the working directory and the append-only
//! audit log of executed or attempted actions.

use vstd::prelude::*;
use vstd::string::*;
use crate::text::views_of;
use crate::value::{ParamMap, ParamValue};

verus! {

/// One executed or attempted operation, immutable once recorded.
pub struct AgentAction {
    pub action_type: String,
    pub description: String,
    pub parameters: ParamMap,
    pub result: Option<ParamValue>,
    pub success: bool,
    pub error_message: Option<String>,
}

/// Per-conversation agent state. The audit log is append-only: entries
/// stand in the order the actions completed.
pub struct AgentSession {
    pub id: String,
    pub active: bool,
    pub actions: Vec<AgentAction>,
    pub current_directory: String,
    pub capabilities: Vec<String>,
}

/// The names of the actions a fresh session may attempt.
pub open spec fn default_capability_names() -> Seq<Seq<char>> {
    seq![
        "list_directory"@,
        "read_file"@,
        "write_file"@,
        "search_files"@,
        "open_file"@,
        "change_directory"@,
        "get_file_info"@,
        "launch_application"@,
        "get_installed_apps"@,
        "execute_command"@,
        "file_operation"@,
        "get_processes"@,
        "kill_process"@,
    ]
}

fn default_capabilities() -> (r: Vec<String>)
    ensures
        views_of(r@) == default_capability_names(),
{
    let mut r: Vec<String> = Vec::new();
    r.push(String::from_str("list_directory"));
    r.push(String::from_str("read_file"));
    r.push(String::from_str("write_file"));
    r.push(String::from_str("search_files"));
    r.push(String::from_str("open_file"));
    r.push(String::from_str("change_directory"));
    r.push(String::from_str("get_file_info"));
    r.push(String::from_str("launch_application"));
    r.push(String::from_str("get_installed_apps"));
    r.push(String::from_str("execute_command"));
    r.push(String::from_str("file_operation"));
    r.push(String::from_str("get_processes"));
    r.push(String::from_str("kill_process"));
    proof {
        assert(views_of(r@) =~= default_capability_names());
    }
    r
}

impl AgentSession {
    /// A fresh, active session with an empty audit log and the default
    /// capability list. The caller supplies the initial working
    /// directory, normally the process's current directory.
    pub fn new(id: String, current_directory: String) -> (r: AgentSession)
        ensures
            r.id == id,
            r.active,
            r.actions@.len() == 0,
            r.current_directory == current_directory,
            views_of(r.capabilities@) == default_capability_names(),
    {
        AgentSession {
            id,
            active: true,
            actions: Vec::new(),
            current_directory,
            capabilities: default_capabilities(),
        }
    }

    /// Records the outcome of one dispatched action: builds the action
    /// record, appends it to the audit log — always exactly one entry,
    /// success or failure — and hands it back.
    pub fn record_outcome(
        &mut self,
        action_type: &str,
        parameters: ParamMap,
        outcome: Result<ParamValue, String>,
    ) -> (r: &AgentAction)
        ensures
            final(self).actions@ == old(self).actions@.push(*r),
            final(self).actions@.len() == old(self).actions@.len() + 1,
            final(self).id == old(self).id,
            final(self).active == old(self).active,
            final(self).current_directory == old(self).current_directory,
            final(self).capabilities == old(self).capabilities,
            r.action_type@ == action_type@,
            r.parameters == parameters,
            match outcome {
                Ok(v) => {
                    &&& r.success
                    &&& r.result == Some(v)
                    &&& r.error_message is None
                    &&& r.description@ == "Successfully executed "@ + action_type@
                },
                Err(e) => {
                    &&& !r.success
                    &&& r.result is None
                    &&& r.error_message == Some(e)
                    &&& r.description@ == "Failed to execute "@ + action_type@ + ": "@ + e@
                },
            },
    {
        let action = match outcome {
            Ok(v) => {
                let mut description = String::from_str("Successfully executed ");
                description.append(action_type);
                AgentAction {
                    action_type: String::from_str(action_type),
                    description,
                    parameters,
                    result: Some(v),
                    success: true,
                    error_message: None,
                }
            },
            Err(e) => {
                let mut description = String::from_str("Failed to execute ");
                description.append(action_type);
                description.append(": ");
                description.append(e.as_str());
                proof {
                    assert(description@ =~= "Failed to execute "@ + action_type@ + ": "@ + e@);
                }
                AgentAction {
                    action_type: String::from_str(action_type),
                    description,
                    parameters,
                    result: None,
                    success: false,
                    error_message: Some(e),
                }
            },
        };
        self.actions.push(action);
        let idx = self.actions.len() - 1;
        &self.actions[idx]
    }

    /// Applies the outcome of a change-directory check: when the target
    /// exists and is a directory the working directory becomes `path`;
    /// otherwise the session is left exactly as it was and the outcome is
    /// the failure to report. The audit log is untouched either way.
    pub fn apply_change_directory(&mut self, path: &str, exists_and_is_dir: bool) -> (outcome:
        Result<ParamValue, String>)
        ensures
            final(self).actions == old(self).actions,
            final(self).id == old(self).id,
            final(self).active == old(self).active,
            final(self).capabilities == old(self).capabilities,
            exists_and_is_dir ==> {
                &&& final(self).current_directory@ == path@
                &&& outcome matches Ok(v) && v matches ParamValue::Str(m) && m@
                    == "Changed directory to "@ + path@
            },
            !exists_and_is_dir ==> {
                &&& final(self).current_directory == old(self).current_directory
                &&& outcome matches Err(e) && e@ == "Directory does not exist: "@ + path@
            },
    {
        if exists_and_is_dir {
            self.current_directory = String::from_str(path);
            let mut m = String::from_str("Changed directory to ");
            m.append(path);
            Ok(ParamValue::Str(m))
        } else {
            let mut e = String::from_str("Directory does not exist: ");
            e.append(path);
            Err(e)
        }
    }
}

} // verus!
