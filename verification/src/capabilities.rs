//! The static capability catalog: the introspectable descriptions of the
//! actions the agent runtime can perform, with their declared parameter
//! schemas. Purely informational; the dispatcher enforces nothing from
//! here.

use vstd::prelude::*;
use vstd::string::*;
use crate::value::ParamValue;

verus! {

/// One declared parameter of a capability.
pub struct AgentParameter {
    pub name: String,
    pub parameter_type: String,
    pub description: String,
    pub required: bool,
    pub default_value: Option<ParamValue>,
}

/// One introspectable capability.
pub struct AgentCapability {
    pub name: String,
    pub description: String,
    pub parameters: Vec<AgentParameter>,
}

/// `p` declares a required parameter without a default.
pub open spec fn param_required(p: AgentParameter, name: Seq<char>, ty: Seq<char>) -> bool {
    &&& p.name@ == name
    &&& p.parameter_type@ == ty
    &&& p.required
    &&& p.default_value is None
}

/// `p` declares an optional parameter whose default is the string `v`.
pub open spec fn param_str_default(
    p: AgentParameter,
    name: Seq<char>,
    ty: Seq<char>,
    v: Seq<char>,
) -> bool {
    &&& p.name@ == name
    &&& p.parameter_type@ == ty
    &&& !p.required
    &&& p.default_value matches Some(ParamValue::Str(s)) && s@ == v
}

/// `p` declares an optional parameter whose default is the boolean `v`.
pub open spec fn param_bool_default(
    p: AgentParameter,
    name: Seq<char>,
    ty: Seq<char>,
    v: bool,
) -> bool {
    &&& p.name@ == name
    &&& p.parameter_type@ == ty
    &&& !p.required
    &&& p.default_value == Some(ParamValue::Bool(v))
}

/// `p` declares an optional parameter whose default is the number `v`.
pub open spec fn param_int_default(
    p: AgentParameter,
    name: Seq<char>,
    ty: Seq<char>,
    v: i64,
) -> bool {
    &&& p.name@ == name
    &&& p.parameter_type@ == ty
    &&& !p.required
    &&& p.default_value == Some(ParamValue::Int(v))
}

/// `p` declares an optional parameter without a default.
pub open spec fn param_optional(p: AgentParameter, name: Seq<char>, ty: Seq<char>) -> bool {
    &&& p.name@ == name
    &&& p.parameter_type@ == ty
    &&& !p.required
    &&& p.default_value is None
}

/// The catalog holds exactly the six introspectable capabilities, each
/// with its declared parameter schema.
pub open spec fn catalog_ok(caps: Seq<AgentCapability>) -> bool {
    &&& caps.len() == 6
    &&& caps[0].name@ == "list_directory"@
    &&& caps[0].description@ == "List contents of a directory"@
    &&& caps[0].parameters@.len() == 2
    &&& param_str_default(caps[0].parameters@[0], "path"@, "string"@, "."@)
    &&& param_bool_default(caps[0].parameters@[1], "recursive"@, "boolean"@, false)
    &&& caps[1].name@ == "read_file"@
    &&& caps[1].description@ == "Read contents of a text file"@
    &&& caps[1].parameters@.len() == 1
    &&& param_required(caps[1].parameters@[0], "path"@, "string"@)
    &&& caps[2].name@ == "write_file"@
    &&& caps[2].description@ == "Write contents to a file"@
    &&& caps[2].parameters@.len() == 2
    &&& param_required(caps[2].parameters@[0], "path"@, "string"@)
    &&& param_required(caps[2].parameters@[1], "content"@, "string"@)
    &&& caps[3].name@ == "search_files"@
    &&& caps[3].description@ == "Search for text patterns in files using regex"@
    &&& caps[3].parameters@.len() == 6
    &&& param_required(caps[3].parameters@[0], "pattern"@, "string"@)
    &&& param_str_default(caps[3].parameters@[1], "directory"@, "string"@, "."@)
    &&& param_optional(caps[3].parameters@[2], "file_extension"@, "string"@)
    &&& param_bool_default(caps[3].parameters@[3], "case_sensitive"@, "boolean"@, false)
    &&& param_bool_default(caps[3].parameters@[4], "recursive"@, "boolean"@, true)
    &&& param_int_default(caps[3].parameters@[5], "max_results"@, "number"@, 100)
    &&& caps[4].name@ == "open_file"@
    &&& caps[4].description@ == "Open a file with the default system application"@
    &&& caps[4].parameters@.len() == 1
    &&& param_required(caps[4].parameters@[0], "path"@, "string"@)
    &&& caps[5].name@ == "change_directory"@
    &&& caps[5].description@ == "Change the current working directory for the agent"@
    &&& caps[5].parameters@.len() == 1
    &&& param_required(caps[5].parameters@[0], "path"@, "string"@)
}

fn required_param(name: &str, ty: &str, description: &str) -> (p: AgentParameter)
    ensures
        param_required(p, name@, ty@),
        p.description@ == description@,
{
    AgentParameter {
        name: String::from_str(name),
        parameter_type: String::from_str(ty),
        description: String::from_str(description),
        required: true,
        default_value: None,
    }
}

fn optional_param(name: &str, ty: &str, description: &str, default_value: Option<ParamValue>) -> (p:
    AgentParameter)
    ensures
        p.name@ == name@,
        p.parameter_type@ == ty@,
        p.description@ == description@,
        !p.required,
        p.default_value == default_value,
{
    AgentParameter {
        name: String::from_str(name),
        parameter_type: String::from_str(ty),
        description: String::from_str(description),
        required: false,
        default_value,
    }
}

/// The static catalog of introspectable capabilities.
pub fn get_capabilities() -> (caps: Vec<AgentCapability>)
    ensures
        catalog_ok(caps@),
{
    let mut caps: Vec<AgentCapability> = Vec::new();

    let mut list_params: Vec<AgentParameter> = Vec::new();
    list_params.push(
        optional_param(
            "path",
            "string",
            "Directory path to list",
            Some(ParamValue::Str(String::from_str("."))),
        ),
    );
    list_params.push(
        optional_param(
            "recursive",
            "boolean",
            "Whether to list recursively",
            Some(ParamValue::Bool(false)),
        ),
    );
    caps.push(
        AgentCapability {
            name: String::from_str("list_directory"),
            description: String::from_str("List contents of a directory"),
            parameters: list_params,
        },
    );

    let mut read_params: Vec<AgentParameter> = Vec::new();
    read_params.push(required_param("path", "string", "File path to read"));
    caps.push(
        AgentCapability {
            name: String::from_str("read_file"),
            description: String::from_str("Read contents of a text file"),
            parameters: read_params,
        },
    );

    let mut write_params: Vec<AgentParameter> = Vec::new();
    write_params.push(required_param("path", "string", "File path to write to"));
    write_params.push(required_param("content", "string", "Content to write to the file"));
    caps.push(
        AgentCapability {
            name: String::from_str("write_file"),
            description: String::from_str("Write contents to a file"),
            parameters: write_params,
        },
    );

    let mut search_params: Vec<AgentParameter> = Vec::new();
    search_params.push(required_param("pattern", "string", "Regex pattern to search for"));
    search_params.push(
        optional_param(
            "directory",
            "string",
            "Directory to search in",
            Some(ParamValue::Str(String::from_str("."))),
        ),
    );
    search_params.push(
        optional_param(
            "file_extension",
            "string",
            "Filter by file extension (e.g., 'rs', 'js')",
            None,
        ),
    );
    search_params.push(
        optional_param(
            "case_sensitive",
            "boolean",
            "Whether the search should be case sensitive",
            Some(ParamValue::Bool(false)),
        ),
    );
    search_params.push(
        optional_param(
            "recursive",
            "boolean",
            "Whether to search recursively",
            Some(ParamValue::Bool(true)),
        ),
    );
    search_params.push(
        optional_param(
            "max_results",
            "number",
            "Maximum number of results to return",
            Some(ParamValue::Int(100)),
        ),
    );
    caps.push(
        AgentCapability {
            name: String::from_str("search_files"),
            description: String::from_str("Search for text patterns in files using regex"),
            parameters: search_params,
        },
    );

    let mut open_params: Vec<AgentParameter> = Vec::new();
    open_params.push(required_param("path", "string", "File or directory path to open"));
    caps.push(
        AgentCapability {
            name: String::from_str("open_file"),
            description: String::from_str("Open a file with the default system application"),
            parameters: open_params,
        },
    );

    let mut cd_params: Vec<AgentParameter> = Vec::new();
    cd_params.push(required_param("path", "string", "Directory path to change to"));
    caps.push(
        AgentCapability {
            name: String::from_str("change_directory"),
            description: String::from_str("Change the current working directory for the agent"),
            parameters: cd_params,
        },
    );

    caps
}

} // verus!
