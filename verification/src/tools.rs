//! The tool registry: the fixed, ordered set of file-system tools, their
//! wire-format schema descriptions, and the planning of one tool call.
//!
//! A tool call arrives as a name and a JSON-encoded argument string.  The
//! planner decodes the arguments, sanitizes every path-shaped argument, and
//! yields the effect to perform; decode failures, unknown names, unsafe
//! paths and missing fields each get their own error.

use vstd::prelude::*;
use crate::action::sp_obj_get;
use crate::action::str_eq;
use crate::action::obj_find;
use crate::chat::ToolCall;
use crate::dispatch::Effect;
use crate::dispatch::EffectModel;
use crate::json::JsonModel;
use crate::json::JsonValue;
use crate::json::str_to_chars;
use crate::parse::parse_text;
use crate::parse::sp_parse_text;
use crate::parse::views_of_members;
use crate::sandbox::sanitize_and_resolve_path;
use crate::sandbox::sanitize_path_string;
use crate::sandbox::sp_is_safe;
use crate::sandbox::sp_resolved_str;
use crate::sandbox::sp_sanitized;

verus! {

/// The one kind of tool the wire protocol knows.
#[derive(PartialEq, Eq, Structural, Clone, Copy, Debug)]
pub enum ToolType {
    Function,
}

/// A field of a JSON-schema object: its type, an optional description, and
/// optional enumeration constraints.
#[derive(Debug, Clone, PartialEq, Eq)]
pub struct JsonSchemaField {
    pub field_type: String,
    pub description: Option<String>,
    pub enum_values: Option<Vec<String>>,
}

/// A JSON-schema object: its type tag, named fields, and which of them are
/// required.
#[derive(Debug, Clone, PartialEq, Eq)]
pub struct JsonSchemaObject {
    pub schema_type: String,
    pub properties: Vec<(String, JsonSchemaField)>,
    pub required: Vec<String>,
}

/// The function a tool definition describes.
#[derive(Debug, Clone, PartialEq, Eq)]
pub struct ToolFunction {
    pub name: String,
    pub description: String,
    pub parameters: JsonSchemaObject,
}

/// One entry of the tool catalogue sent with each request.
#[derive(Debug, Clone, PartialEq, Eq)]
pub struct ToolDefinition {
    pub tool_type: ToolType,
    pub function: ToolFunction,
}

/// Why a tool call was not planned.
#[derive(PartialEq, Eq, Structural, Clone, Copy, Debug)]
pub enum DispatchError {
    MalformedArguments,
    UnknownAction,
    UnsafePath,
    SchemaError,
}

/// A property holds a plain string field with a description and no
/// enumeration constraint.
pub open spec fn sp_string_field(f: JsonSchemaField) -> bool {
    &&& f.field_type@ == "string"@
    &&& f.description is Some
    &&& f.enum_values is None
}

/// The shape every tool's schema shares: an `object` whose properties are
/// described string fields.
pub open spec fn sp_schema_shape(o: JsonSchemaObject) -> bool {
    &&& o.schema_type@ == "object"@
    &&& forall|q: int| 0 <= q < o.properties@.len() ==> sp_string_field(
        #[trigger] o.properties@[q].1,
    )
}

/// The definition of `create_file`: a required `path` and optional
/// `contents`.
pub open spec fn sp_create_file_def(d: ToolDefinition) -> bool {
    &&& d.tool_type == ToolType::Function
    &&& d.function.name@ == "create_file"@
    &&& sp_schema_shape(d.function.parameters)
    &&& d.function.parameters.properties@.len() == 2
    &&& d.function.parameters.properties@[0].0@ == "path"@
    &&& d.function.parameters.properties@[1].0@ == "contents"@
    &&& d.function.parameters.required@.len() == 1
    &&& d.function.parameters.required@[0]@ == "path"@
}

/// The definition of `delete_file`: a required `path`.
pub open spec fn sp_delete_file_def(d: ToolDefinition) -> bool {
    &&& d.tool_type == ToolType::Function
    &&& d.function.name@ == "delete_file"@
    &&& sp_schema_shape(d.function.parameters)
    &&& d.function.parameters.properties@.len() == 1
    &&& d.function.parameters.properties@[0].0@ == "path"@
    &&& d.function.parameters.required@.len() == 1
    &&& d.function.parameters.required@[0]@ == "path"@
}

/// The definition of `append_file`: required `path` and `contents`.
pub open spec fn sp_append_file_def(d: ToolDefinition) -> bool {
    &&& d.tool_type == ToolType::Function
    &&& d.function.name@ == "append_file"@
    &&& sp_schema_shape(d.function.parameters)
    &&& d.function.parameters.properties@.len() == 2
    &&& d.function.parameters.properties@[0].0@ == "path"@
    &&& d.function.parameters.properties@[1].0@ == "contents"@
    &&& d.function.parameters.required@.len() == 2
    &&& d.function.parameters.required@[0]@ == "path"@
    &&& d.function.parameters.required@[1]@ == "contents"@
}

/// The definition of `create_dir`: a required `path`.
pub open spec fn sp_create_dir_def(d: ToolDefinition) -> bool {
    &&& d.tool_type == ToolType::Function
    &&& d.function.name@ == "create_dir"@
    &&& sp_schema_shape(d.function.parameters)
    &&& d.function.parameters.properties@.len() == 1
    &&& d.function.parameters.properties@[0].0@ == "path"@
    &&& d.function.parameters.required@.len() == 1
    &&& d.function.parameters.required@[0]@ == "path"@
}

/// The definition of `move_file`: required `from_path` and `to_path`.
pub open spec fn sp_move_file_def(d: ToolDefinition) -> bool {
    &&& d.tool_type == ToolType::Function
    &&& d.function.name@ == "move_file"@
    &&& sp_schema_shape(d.function.parameters)
    &&& d.function.parameters.properties@.len() == 2
    &&& d.function.parameters.properties@[0].0@ == "from_path"@
    &&& d.function.parameters.properties@[1].0@ == "to_path"@
    &&& d.function.parameters.required@.len() == 2
    &&& d.function.parameters.required@[0]@ == "from_path"@
    &&& d.function.parameters.required@[1]@ == "to_path"@
}

/// The definition of `write_file`: required `path` and `contents`.
pub open spec fn sp_write_file_def(d: ToolDefinition) -> bool {
    &&& d.tool_type == ToolType::Function
    &&& d.function.name@ == "write_file"@
    &&& sp_schema_shape(d.function.parameters)
    &&& d.function.parameters.properties@.len() == 2
    &&& d.function.parameters.properties@[0].0@ == "path"@
    &&& d.function.parameters.properties@[1].0@ == "contents"@
    &&& d.function.parameters.required@.len() == 2
    &&& d.function.parameters.required@[0]@ == "path"@
    &&& d.function.parameters.required@[1]@ == "contents"@
}

/// Builds one described string field.
fn string_field(desc: &str) -> (f: JsonSchemaField)
    ensures
        sp_string_field(f),
        f.description->Some_0@ == desc@,
{
    JsonSchemaField {
        field_type: String::from_str("string"),
        description: Some(String::from_str(desc)),
        enum_values: None,
    }
}

/// Builds the shared `object` schema around the given properties.
fn object_schema(properties: Vec<(String, JsonSchemaField)>, required: Vec<String>) -> (o:
    JsonSchemaObject)
    ensures
        o.schema_type@ == "object"@,
        o.properties == properties,
        o.required == required,
{
    JsonSchemaObject { schema_type: String::from_str("object"), properties, required }
}

/// Creates a file, optionally with initial contents, truncating what is
/// there.
pub struct CreateFile;

/// Moves a file to the recoverable trash.
pub struct DeleteFile;

/// Appends text to a file, creating it if absent.
pub struct AppendFile;

/// Creates a directory and its missing parents.
pub struct CreateDir;

/// Renames or moves a file or directory.
pub struct MoveFile;

/// Overwrites a file with the given contents.
pub struct WriteFile;

/// Arguments of `create_file`.
pub struct CreateFileParams {
    pub path: String,
    pub contents: Option<String>,
}

/// Arguments of `delete_file`.
pub struct DeleteFileParams {
    pub path: String,
}

/// Arguments of `append_file`.
pub struct AppendFileParams {
    pub path: String,
    pub contents: String,
}

/// Arguments of `create_dir`.
pub struct CreateDirParams {
    pub path: String,
}

/// Arguments of `move_file`.
pub struct MoveFileParams {
    pub from_path: String,
    pub to_path: String,
}

/// Arguments of `write_file`.
pub struct WriteFileParams {
    pub path: String,
    pub contents: String,
}

impl CreateFile {
    /// The tool's wire name.
    pub fn name(&self) -> (r: &'static str)
        ensures
            r@ == "create_file"@,
    {
        "create_file"
    }

    /// The tool's catalogue entry.
    pub fn definition(&self) -> (r: ToolDefinition)
        ensures
            sp_create_file_def(r),
    {
        let mut properties: Vec<(String, JsonSchemaField)> = Vec::new();
        properties.push(
            (
                String::from_str("path"),
                string_field("The full path where the file should be created"),
            ),
        );
        properties.push(
            (
                String::from_str("contents"),
                string_field("Optional text content to write to the file"),
            ),
        );
        let mut required: Vec<String> = Vec::new();
        required.push(String::from_str("path"));
        ToolDefinition {
            tool_type: ToolType::Function,
            function: ToolFunction {
                name: String::from_str("create_file"),
                description: String::from_str(
                    "Create a file at a given path relative to the current working directory and optionally write contents to it.",
                ),
                parameters: object_schema(properties, required),
            },
        }
    }
}

impl DeleteFile {
    /// The tool's wire name.
    pub fn name(&self) -> (r: &'static str)
        ensures
            r@ == "delete_file"@,
    {
        "delete_file"
    }

    /// The tool's catalogue entry.
    pub fn definition(&self) -> (r: ToolDefinition)
        ensures
            sp_delete_file_def(r),
    {
        let mut properties: Vec<(String, JsonSchemaField)> = Vec::new();
        properties.push(
            (
                String::from_str("path"),
                string_field("The path to the file that should be moved to trash."),
            ),
        );
        let mut required: Vec<String> = Vec::new();
        required.push(String::from_str("path"));
        ToolDefinition {
            tool_type: ToolType::Function,
            function: ToolFunction {
                name: String::from_str("delete_file"),
                description: String::from_str(
                    "Move a file to the system trash (instead of deleting permanently).",
                ),
                parameters: object_schema(properties, required),
            },
        }
    }
}

impl AppendFile {
    /// The tool's wire name.
    pub fn name(&self) -> (r: &'static str)
        ensures
            r@ == "append_file"@,
    {
        "append_file"
    }

    /// The tool's catalogue entry.
    pub fn definition(&self) -> (r: ToolDefinition)
        ensures
            sp_append_file_def(r),
    {
        let mut properties: Vec<(String, JsonSchemaField)> = Vec::new();
        properties.push(
            (
                String::from_str("path"),
                string_field("The path to the file to which content should be appended."),
            ),
        );
        properties.push(
            (String::from_str("contents"), string_field("The content to append to the file.")),
        );
        let mut required: Vec<String> = Vec::new();
        required.push(String::from_str("path"));
        required.push(String::from_str("contents"));
        ToolDefinition {
            tool_type: ToolType::Function,
            function: ToolFunction {
                name: String::from_str("append_file"),
                description: String::from_str("Append text to a file at the given path."),
                parameters: object_schema(properties, required),
            },
        }
    }
}

impl CreateDir {
    /// The tool's wire name.
    pub fn name(&self) -> (r: &'static str)
        ensures
            r@ == "create_dir"@,
    {
        "create_dir"
    }

    /// The tool's catalogue entry.
    pub fn definition(&self) -> (r: ToolDefinition)
        ensures
            sp_create_dir_def(r),
    {
        let mut properties: Vec<(String, JsonSchemaField)> = Vec::new();
        properties.push(
            (String::from_str("path"), string_field("The path of the directory to create.")),
        );
        let mut required: Vec<String> = Vec::new();
        required.push(String::from_str("path"));
        ToolDefinition {
            tool_type: ToolType::Function,
            function: ToolFunction {
                name: String::from_str("create_dir"),
                description: String::from_str(
                    "Create a directory at the given path, including any parent directories.",
                ),
                parameters: object_schema(properties, required),
            },
        }
    }
}

impl MoveFile {
    /// The tool's wire name.
    pub fn name(&self) -> (r: &'static str)
        ensures
            r@ == "move_file"@,
    {
        "move_file"
    }

    /// The tool's catalogue entry.
    pub fn definition(&self) -> (r: ToolDefinition)
        ensures
            sp_move_file_def(r),
    {
        let mut properties: Vec<(String, JsonSchemaField)> = Vec::new();
        properties.push(
            (String::from_str("from_path"), string_field("The original file or directory path.")),
        );
        properties.push(
            (String::from_str("to_path"), string_field("The destination path.")),
        );
        let mut required: Vec<String> = Vec::new();
        required.push(String::from_str("from_path"));
        required.push(String::from_str("to_path"));
        ToolDefinition {
            tool_type: ToolType::Function,
            function: ToolFunction {
                name: String::from_str("move_file"),
                description: String::from_str(
                    "Move a file or directory from one path to another.",
                ),
                parameters: object_schema(properties, required),
            },
        }
    }
}

impl WriteFile {
    /// The tool's wire name.
    pub fn name(&self) -> (r: &'static str)
        ensures
            r@ == "write_file"@,
    {
        "write_file"
    }

    /// The tool's catalogue entry.
    pub fn definition(&self) -> (r: ToolDefinition)
        ensures
            sp_write_file_def(r),
    {
        let mut properties: Vec<(String, JsonSchemaField)> = Vec::new();
        properties.push(
            (String::from_str("path"), string_field("The path to the file.")),
        );
        properties.push(
            (String::from_str("contents"), string_field("Contents to write into the file.")),
        );
        let mut required: Vec<String> = Vec::new();
        required.push(String::from_str("path"));
        required.push(String::from_str("contents"));
        ToolDefinition {
            tool_type: ToolType::Function,
            function: ToolFunction {
                name: String::from_str("write_file"),
                description: String::from_str(
                    "Write contents to a file at the specified path, overwriting if the file exists.",
                ),
                parameters: object_schema(properties, required),
            },
        }
    }
}

/// One registered tool.  The set is closed, so dispatch is a match, not a
/// dynamic lookup.
pub enum Tool {
    CreateFile(CreateFile),
    DeleteFile(DeleteFile),
    AppendFile(AppendFile),
    CreateDir(CreateDir),
    MoveFile(MoveFile),
    WriteFile(WriteFile),
}

impl Tool {
    /// The tool's wire name.
    pub fn name(&self) -> (r: &'static str)
        ensures
            match self {
                Tool::CreateFile(_) => r@ == "create_file"@,
                Tool::DeleteFile(_) => r@ == "delete_file"@,
                Tool::AppendFile(_) => r@ == "append_file"@,
                Tool::CreateDir(_) => r@ == "create_dir"@,
                Tool::MoveFile(_) => r@ == "move_file"@,
                Tool::WriteFile(_) => r@ == "write_file"@,
            },
    {
        match self {
            Tool::CreateFile(t) => t.name(),
            Tool::DeleteFile(t) => t.name(),
            Tool::AppendFile(t) => t.name(),
            Tool::CreateDir(t) => t.name(),
            Tool::MoveFile(t) => t.name(),
            Tool::WriteFile(t) => t.name(),
        }
    }

    /// The tool's catalogue entry.
    pub fn definition(&self) -> (r: ToolDefinition)
        ensures
            match self {
                Tool::CreateFile(_) => sp_create_file_def(r),
                Tool::DeleteFile(_) => sp_delete_file_def(r),
                Tool::AppendFile(_) => sp_append_file_def(r),
                Tool::CreateDir(_) => sp_create_dir_def(r),
                Tool::MoveFile(_) => sp_move_file_def(r),
                Tool::WriteFile(_) => sp_write_file_def(r),
            },
    {
        match self {
            Tool::CreateFile(t) => t.definition(),
            Tool::DeleteFile(t) => t.definition(),
            Tool::AppendFile(t) => t.definition(),
            Tool::CreateDir(t) => t.definition(),
            Tool::MoveFile(t) => t.definition(),
            Tool::WriteFile(t) => t.definition(),
        }
    }
}

/// The fixed, ordered set of tools; a fresh value each call, nothing
/// shared.
pub fn tools_registry() -> (r: Vec<Tool>)
    ensures
        r@.len() == 6,
        r@[0] is CreateFile,
        r@[1] is DeleteFile,
        r@[2] is AppendFile,
        r@[3] is CreateDir,
        r@[4] is MoveFile,
        r@[5] is WriteFile,
{
    let mut r: Vec<Tool> = Vec::new();
    r.push(Tool::CreateFile(CreateFile));
    r.push(Tool::DeleteFile(DeleteFile));
    r.push(Tool::AppendFile(AppendFile));
    r.push(Tool::CreateDir(CreateDir));
    r.push(Tool::MoveFile(MoveFile));
    r.push(Tool::WriteFile(WriteFile));
    r
}

/// The catalogue in registry order.
pub fn tool_definitions() -> (r: Vec<ToolDefinition>)
    ensures
        r@.len() == 6,
        sp_create_file_def(r@[0]),
        sp_delete_file_def(r@[1]),
        sp_append_file_def(r@[2]),
        sp_create_dir_def(r@[3]),
        sp_move_file_def(r@[4]),
        sp_write_file_def(r@[5]),
{
    let registry = tools_registry();
    let mut r: Vec<ToolDefinition> = Vec::new();
    let mut i: usize = 0;
    while i < registry.len()
        invariant
            i <= registry@.len(),
            registry@.len() == 6,
            registry@[0] is CreateFile,
            registry@[1] is DeleteFile,
            registry@[2] is AppendFile,
            registry@[3] is CreateDir,
            registry@[4] is MoveFile,
            registry@[5] is WriteFile,
            r@.len() == i,
            i >= 1 ==> sp_create_file_def(r@[0]),
            i >= 2 ==> sp_delete_file_def(r@[1]),
            i >= 3 ==> sp_append_file_def(r@[2]),
            i >= 4 ==> sp_create_dir_def(r@[3]),
            i >= 5 ==> sp_move_file_def(r@[4]),
            i >= 6 ==> sp_write_file_def(r@[5]),
        decreases registry@.len() - i,
    {
        r.push(registry[i].definition());
        i = i + 1;
    }
    r
}

/// A required string argument, if it stands there as a string.
pub open spec fn sp_text_at(members: Seq<(Seq<char>, JsonModel)>, key: Seq<char>) -> Option<
    Seq<char>,
> {
    match sp_obj_get(members, key) {
        Some(JsonModel::Text(t)) => Some(t),
        _ => None,
    }
}

/// An optional string argument: absent and `null` both count as absent, a
/// string counts as present, anything else is invalid.
pub open spec fn sp_opt_text_at(members: Seq<(Seq<char>, JsonModel)>, key: Seq<char>) -> Option<
    Option<Seq<char>>,
> {
    match sp_obj_get(members, key) {
        None => Some(None),
        Some(JsonModel::Null) => Some(None),
        Some(JsonModel::Text(t)) => Some(Some(t)),
        Some(_) => None,
    }
}

/// Reads a required string argument.
fn get_text(members: &Vec<(String, JsonValue)>, key: &str) -> (r: Option<String>)
    ensures
        match r {
            Some(t) => sp_text_at(views_of_members(members@), key@) == Some(t@),
            None => sp_text_at(views_of_members(members@), key@) is None,
        },
{
    match obj_find(members, key) {
        Some(i) => match &members[i].1 {
            JsonValue::Text(t) => Some(t.clone()),
            _ => None,
        },
        None => None,
    }
}

/// Reads an optional string argument.
fn get_opt_text(members: &Vec<(String, JsonValue)>, key: &str) -> (r: Option<Option<String>>)
    ensures
        match r {
            Some(Some(t)) => sp_opt_text_at(views_of_members(members@), key@) == Some(Some(t@)),
            Some(None) => sp_opt_text_at(views_of_members(members@), key@) == Some(
                None::<Seq<char>>,
            ),
            None => sp_opt_text_at(views_of_members(members@), key@) is None,
        },
{
    match obj_find(members, key) {
        Some(i) => match &members[i].1 {
            JsonValue::Text(t) => Some(Some(t.clone())),
            JsonValue::Null => Some(None),
            _ => None,
        },
        None => Some(None),
    }
}

impl CreateFileParams {
    /// Reads the arguments of `create_file`: a `path` string, and optional
    /// `contents` where `null` counts as absent.
    pub fn from_json(v: &JsonValue) -> (r: Option<CreateFileParams>)
        ensures
            match r {
                Some(p) => v@ is Object && sp_text_at(v@->Object_0, "path"@) == Some(p.path@)
                    && sp_opt_text_at(v@->Object_0, "contents"@) == Some(
                    match p.contents {
                        Some(c) => Some(c@),
                        None => None::<Seq<char>>,
                    },
                ),
                None => !(v@ is Object) || sp_text_at(v@->Object_0, "path"@) is None
                    || sp_opt_text_at(v@->Object_0, "contents"@) is None,
            },
    {
        match v {
            JsonValue::Object(members) => {
                proof {
                    assert(views_of_members(members@) =~= v@->Object_0);
                }
                match (get_text(members, "path"), get_opt_text(members, "contents")) {
                    (Some(path), Some(contents)) => Some(CreateFileParams { path, contents }),
                    _ => None,
                }
            },
            _ => None,
        }
    }
}

impl DeleteFileParams {
    /// Reads the arguments of `delete_file`: a `path` string.
    pub fn from_json(v: &JsonValue) -> (r: Option<DeleteFileParams>)
        ensures
            match r {
                Some(p) => v@ is Object && sp_text_at(v@->Object_0, "path"@) == Some(p.path@),
                None => !(v@ is Object) || sp_text_at(v@->Object_0, "path"@) is None,
            },
    {
        match v {
            JsonValue::Object(members) => {
                proof {
                    assert(views_of_members(members@) =~= v@->Object_0);
                }
                match get_text(members, "path") {
                    Some(path) => Some(DeleteFileParams { path }),
                    None => None,
                }
            },
            _ => None,
        }
    }
}

impl AppendFileParams {
    /// Reads the arguments of `append_file`: `path` and `contents` strings.
    pub fn from_json(v: &JsonValue) -> (r: Option<AppendFileParams>)
        ensures
            match r {
                Some(p) => v@ is Object && sp_text_at(v@->Object_0, "path"@) == Some(p.path@)
                    && sp_text_at(v@->Object_0, "contents"@) == Some(p.contents@),
                None => !(v@ is Object) || sp_text_at(v@->Object_0, "path"@) is None
                    || sp_text_at(v@->Object_0, "contents"@) is None,
            },
    {
        match v {
            JsonValue::Object(members) => {
                proof {
                    assert(views_of_members(members@) =~= v@->Object_0);
                }
                match (get_text(members, "path"), get_text(members, "contents")) {
                    (Some(path), Some(contents)) => Some(AppendFileParams { path, contents }),
                    _ => None,
                }
            },
            _ => None,
        }
    }
}

impl CreateDirParams {
    /// Reads the arguments of `create_dir`: a `path` string.
    pub fn from_json(v: &JsonValue) -> (r: Option<CreateDirParams>)
        ensures
            match r {
                Some(p) => v@ is Object && sp_text_at(v@->Object_0, "path"@) == Some(p.path@),
                None => !(v@ is Object) || sp_text_at(v@->Object_0, "path"@) is None,
            },
    {
        match v {
            JsonValue::Object(members) => {
                proof {
                    assert(views_of_members(members@) =~= v@->Object_0);
                }
                match get_text(members, "path") {
                    Some(path) => Some(CreateDirParams { path }),
                    None => None,
                }
            },
            _ => None,
        }
    }
}

impl MoveFileParams {
    /// Reads the arguments of `move_file`: `from_path` and `to_path` strings.
    pub fn from_json(v: &JsonValue) -> (r: Option<MoveFileParams>)
        ensures
            match r {
                Some(p) => v@ is Object && sp_text_at(v@->Object_0, "from_path"@) == Some(
                    p.from_path@,
                ) && sp_text_at(v@->Object_0, "to_path"@) == Some(p.to_path@),
                None => !(v@ is Object) || sp_text_at(v@->Object_0, "from_path"@) is None
                    || sp_text_at(v@->Object_0, "to_path"@) is None,
            },
    {
        match v {
            JsonValue::Object(members) => {
                proof {
                    assert(views_of_members(members@) =~= v@->Object_0);
                }
                match (get_text(members, "from_path"), get_text(members, "to_path")) {
                    (Some(from_path), Some(to_path)) => Some(
                        MoveFileParams { from_path, to_path },
                    ),
                    _ => None,
                }
            },
            _ => None,
        }
    }
}

impl WriteFileParams {
    /// Reads the arguments of `write_file`: `path` and `contents` strings.
    pub fn from_json(v: &JsonValue) -> (r: Option<WriteFileParams>)
        ensures
            match r {
                Some(p) => v@ is Object && sp_text_at(v@->Object_0, "path"@) == Some(p.path@)
                    && sp_text_at(v@->Object_0, "contents"@) == Some(p.contents@),
                None => !(v@ is Object) || sp_text_at(v@->Object_0, "path"@) is None
                    || sp_text_at(v@->Object_0, "contents"@) is None,
            },
    {
        match v {
            JsonValue::Object(members) => {
                proof {
                    assert(views_of_members(members@) =~= v@->Object_0);
                }
                match (get_text(members, "path"), get_text(members, "contents")) {
                    (Some(path), Some(contents)) => Some(WriteFileParams { path, contents }),
                    _ => None,
                }
            },
            _ => None,
        }
    }
}

/// The name denotes a registered tool.
pub open spec fn sp_known_tool(name: Seq<char>) -> bool {
    ||| name == "create_file"@
    ||| name == "delete_file"@
    ||| name == "append_file"@
    ||| name == "create_dir"@
    ||| name == "move_file"@
    ||| name == "write_file"@
}

/// The arguments object carries a `path` string that the sandbox rejects.
pub open spec fn sp_path_unsafe_precheck(cwd: Seq<char>, m: JsonModel) -> bool {
    match m {
        JsonModel::Object(ms) => match sp_text_at(ms, "path"@) {
            Some(p) => !sp_is_safe(cwd, sp_sanitized(p)),
            None => false,
        },
        _ => false,
    }
}

/// What the named tool does with the (already path-checked) arguments.
pub open spec fn sp_dispatch(cwd: Seq<char>, name: Seq<char>, m: JsonModel) -> Result<
    EffectModel,
    DispatchError,
> {
    let ms = m->Object_0;
    if name == "create_file"@ {
        if m is Object {
            match (sp_text_at(ms, "path"@), sp_opt_text_at(ms, "contents"@)) {
                (Some(p), Some(c)) => Ok(
                    EffectModel::CreateFile {
                        path: sp_resolved_str(cwd, sp_sanitized(p)),
                        content: c,
                    },
                ),
                _ => Err(DispatchError::SchemaError),
            }
        } else {
            Err(DispatchError::SchemaError)
        }
    } else if name == "delete_file"@ {
        if m is Object {
            match sp_text_at(ms, "path"@) {
                Some(p) => Ok(
                    EffectModel::DeleteFile { path: sp_resolved_str(cwd, sp_sanitized(p)) },
                ),
                None => Err(DispatchError::SchemaError),
            }
        } else {
            Err(DispatchError::SchemaError)
        }
    } else if name == "append_file"@ {
        if m is Object {
            match (sp_text_at(ms, "path"@), sp_text_at(ms, "contents"@)) {
                (Some(p), Some(c)) => Ok(
                    EffectModel::AppendFile {
                        path: sp_resolved_str(cwd, sp_sanitized(p)),
                        content: c,
                    },
                ),
                _ => Err(DispatchError::SchemaError),
            }
        } else {
            Err(DispatchError::SchemaError)
        }
    } else if name == "create_dir"@ {
        if m is Object {
            match sp_text_at(ms, "path"@) {
                Some(p) => Ok(
                    EffectModel::CreateDir { path: sp_resolved_str(cwd, sp_sanitized(p)) },
                ),
                None => Err(DispatchError::SchemaError),
            }
        } else {
            Err(DispatchError::SchemaError)
        }
    } else if name == "move_file"@ {
        if m is Object {
            match (sp_text_at(ms, "from_path"@), sp_text_at(ms, "to_path"@)) {
                (Some(f), Some(t)) => if !sp_is_safe(cwd, sp_sanitized(f)) {
                    Err(DispatchError::UnsafePath)
                } else if !sp_is_safe(cwd, sp_sanitized(t)) {
                    Err(DispatchError::UnsafePath)
                } else {
                    Ok(
                        EffectModel::MoveFile {
                            from_path: sp_resolved_str(cwd, sp_sanitized(f)),
                            to_path: sp_resolved_str(cwd, sp_sanitized(t)),
                        },
                    )
                },
                _ => Err(DispatchError::SchemaError),
            }
        } else {
            Err(DispatchError::SchemaError)
        }
    } else if name == "write_file"@ {
        if m is Object {
            match (sp_text_at(ms, "path"@), sp_text_at(ms, "contents"@)) {
                (Some(p), Some(c)) => Ok(
                    EffectModel::WriteFile {
                        path: sp_resolved_str(cwd, sp_sanitized(p)),
                        content: c,
                    },
                ),
                _ => Err(DispatchError::SchemaError),
            }
        } else {
            Err(DispatchError::SchemaError)
        }
    } else {
        Err(DispatchError::UnknownAction)
    }
}

/// What planning a tool call yields: decode the arguments, resolve the
/// name, reject an unsafe `path` argument before reading anything else,
/// then extract the tool's own arguments.
pub open spec fn sp_plan_tool_call(cwd: Seq<char>, name: Seq<char>, args: Seq<char>) -> Result<
    EffectModel,
    DispatchError,
> {
    match sp_parse_text(args) {
        None => Err(DispatchError::MalformedArguments),
        Some(m) => if !sp_known_tool(name) {
            Err(DispatchError::UnknownAction)
        } else if sp_path_unsafe_precheck(cwd, m) {
            Err(DispatchError::UnsafePath)
        } else {
            sp_dispatch(cwd, name, m)
        },
    }
}

/// Plans one tool call: the effect to perform, with every path-shaped
/// argument sanitized and resolved, or the error to report.  The whole
/// remaining batch is to be aborted on any error.
pub fn plan_tool_call(cwd: &str, call: &ToolCall) -> (r: Result<Effect, DispatchError>)
    ensures
        match r {
            Ok(e) => sp_plan_tool_call(cwd@, call.function.name@, call.function.arguments@) == Ok::<
                EffectModel,
                DispatchError,
            >(e@),
            Err(d) => sp_plan_tool_call(cwd@, call.function.name@, call.function.arguments@)
                == Err::<EffectModel, DispatchError>(d),
        },
{
    let arg_chars = str_to_chars(call.function.arguments.as_str());
    let v = match parse_text(&arg_chars) {
        Some(v) => v,
        None => {
            return Err(DispatchError::MalformedArguments);
        },
    };
    let ghost m = v@;
    let name = call.function.name.as_str();
    let known = str_eq(name, "create_file") || str_eq(name, "delete_file") || str_eq(
        name,
        "append_file",
    ) || str_eq(name, "create_dir") || str_eq(name, "move_file") || str_eq(name, "write_file");
    if !known {
        return Err(DispatchError::UnknownAction);
    }
    match &v {
        JsonValue::Object(members) => {
            proof {
                assert(views_of_members(members@) =~= m->Object_0);
            }
            match get_text(members, "path") {
                Some(p) => {
                    let spelled = sanitize_path_string(p.as_str());
                    match sanitize_and_resolve_path(cwd, spelled.as_str()) {
                        Ok(_) => {},
                        Err(_) => {
                            return Err(DispatchError::UnsafePath);
                        },
                    }
                },
                None => {},
            }
        },
        _ => {},
    }
    if str_eq(name, "create_file") {
        let params = match CreateFileParams::from_json(&v) {
            Some(p) => p,
            None => {
                return Err(DispatchError::SchemaError);
            },
        };
        let spelled = sanitize_path_string(params.path.as_str());
        match sanitize_and_resolve_path(cwd, spelled.as_str()) {
            Ok(rp) => Ok(Effect::CreateFile { path: rp, content: params.contents }),
            Err(_) => Err(DispatchError::UnsafePath),
        }
    } else if str_eq(name, "delete_file") {
        let params = match DeleteFileParams::from_json(&v) {
            Some(p) => p,
            None => {
                return Err(DispatchError::SchemaError);
            },
        };
        let spelled = sanitize_path_string(params.path.as_str());
        match sanitize_and_resolve_path(cwd, spelled.as_str()) {
            Ok(rp) => Ok(Effect::DeleteFile { path: rp }),
            Err(_) => Err(DispatchError::UnsafePath),
        }
    } else if str_eq(name, "append_file") {
        let params = match AppendFileParams::from_json(&v) {
            Some(p) => p,
            None => {
                return Err(DispatchError::SchemaError);
            },
        };
        let spelled = sanitize_path_string(params.path.as_str());
        match sanitize_and_resolve_path(cwd, spelled.as_str()) {
            Ok(rp) => Ok(Effect::AppendFile { path: rp, content: params.contents }),
            Err(_) => Err(DispatchError::UnsafePath),
        }
    } else if str_eq(name, "create_dir") {
        let params = match CreateDirParams::from_json(&v) {
            Some(p) => p,
            None => {
                return Err(DispatchError::SchemaError);
            },
        };
        let spelled = sanitize_path_string(params.path.as_str());
        match sanitize_and_resolve_path(cwd, spelled.as_str()) {
            Ok(rp) => Ok(Effect::CreateDir { path: rp }),
            Err(_) => Err(DispatchError::UnsafePath),
        }
    } else if str_eq(name, "move_file") {
        let params = match MoveFileParams::from_json(&v) {
            Some(p) => p,
            None => {
                return Err(DispatchError::SchemaError);
            },
        };
        let f_spelled = sanitize_path_string(params.from_path.as_str());
        let rf = match sanitize_and_resolve_path(cwd, f_spelled.as_str()) {
            Ok(rf) => rf,
            Err(_) => {
                return Err(DispatchError::UnsafePath);
            },
        };
        let t_spelled = sanitize_path_string(params.to_path.as_str());
        let rt = match sanitize_and_resolve_path(cwd, t_spelled.as_str()) {
            Ok(rt) => rt,
            Err(_) => {
                return Err(DispatchError::UnsafePath);
            },
        };
        Ok(Effect::MoveFile { from_path: rf, to_path: rt })
    } else if str_eq(name, "write_file") {
        let params = match WriteFileParams::from_json(&v) {
            Some(p) => p,
            None => {
                return Err(DispatchError::SchemaError);
            },
        };
        let spelled = sanitize_path_string(params.path.as_str());
        match sanitize_and_resolve_path(cwd, spelled.as_str()) {
            Ok(rp) => Ok(Effect::WriteFile { path: rp, content: params.contents }),
            Err(_) => Err(DispatchError::UnsafePath),
        }
    } else {
        Err(DispatchError::UnknownAction)
    }
}

} // verus!
