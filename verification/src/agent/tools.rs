//! The tools that the model may call: their catalogue, and what a call asks
//! the host to do.

use vstd::prelude::*;
use vstd::string::*;
use serde_json::Value;
use crate::agent::json::{string_member, string_members};
use crate::text::{concat2, join, joined, same_text};
use crate::agent::types::{
    ParameterSchema, ParameterSchemaView, ToolDefinition, ToolDefinitionView, ToolParameters,
    ToolParametersView,
};

verus! {

/// The schema of a parameter that takes a JSON string.
pub open spec fn string_parameter(name: Seq<char>, description: Seq<char>) -> ParameterSchemaView {
    ParameterSchemaView { name, value_type: "string"@, description }
}

/// A tool with the given properties, of which `required` must be given.
pub open spec fn tool(
    name: Seq<char>,
    description: Seq<char>,
    properties: Seq<ParameterSchemaView>,
    required: Seq<Seq<char>>,
) -> ToolDefinitionView {
    ToolDefinitionView {
        name,
        description,
        parameters: ToolParametersView { properties, required },
    }
}

/// The catalogue of tools: three on files, one code search, one shell command.
pub open spec fn available_tools() -> Seq<ToolDefinitionView> {
    seq![
        tool(
            "read_file"@,
            "Read the contents of a file"@,
            seq![string_parameter("path"@, "The path to the file to read"@)],
            seq!["path"@],
        ),
        tool(
            "write_file"@,
            "Write content to a file"@,
            seq![
                string_parameter("path"@, "The path to the file to write"@),
                string_parameter("content"@, "The content to write to the file"@),
            ],
            seq!["path"@, "content"@],
        ),
        tool(
            "list_files"@,
            "List files in a directory"@,
            seq![string_parameter("path"@, "The directory path to list"@)],
            seq!["path"@],
        ),
        tool(
            "search_code"@,
            "Search for code patterns in the codebase"@,
            seq![
                string_parameter("query"@, "The search query"@),
                string_parameter("path"@, "Optional path to search in"@),
            ],
            seq!["query"@],
        ),
        tool(
            "run_command"@,
            "Run a shell command"@,
            seq![
                string_parameter("command"@, "The command to run"@),
                string_parameter("cwd"@, "Working directory (optional)"@),
            ],
            seq!["command"@],
        ),
    ]
}

fn string_property(name: &str, description: &str) -> (r: ParameterSchema)
    ensures
        r@ == string_parameter(name@, description@),
{
    ParameterSchema {
        name: name.to_owned(),
        value_type: "string".to_owned(),
        description: description.to_owned(),
    }
}

fn one_property(name: &str, description: &str) -> (r: Vec<ParameterSchema>)
    ensures
        r.deep_view() == seq![string_parameter(name@, description@)],
{
    let mut properties: Vec<ParameterSchema> = Vec::new();
    properties.push(string_property(name, description));
    assert(properties.deep_view() =~= seq![string_parameter(name@, description@)]);
    properties
}

fn two_properties(
    first_name: &str,
    first_description: &str,
    second_name: &str,
    second_description: &str,
) -> (r: Vec<ParameterSchema>)
    ensures
        r.deep_view() == seq![
            string_parameter(first_name@, first_description@),
            string_parameter(second_name@, second_description@),
        ],
{
    let mut properties: Vec<ParameterSchema> = Vec::new();
    properties.push(string_property(first_name, first_description));
    properties.push(string_property(second_name, second_description));
    assert(properties.deep_view() =~= seq![
        string_parameter(first_name@, first_description@),
        string_parameter(second_name@, second_description@),
    ]);
    properties
}

fn one_name(name: &str) -> (r: Vec<String>)
    ensures
        r.deep_view() == seq![name@],
{
    let mut names: Vec<String> = Vec::new();
    names.push(name.to_owned());
    assert(names.deep_view() =~= seq![name@]);
    names
}

fn two_names(first: &str, second: &str) -> (r: Vec<String>)
    ensures
        r.deep_view() == seq![first@, second@],
{
    let mut names: Vec<String> = Vec::new();
    names.push(first.to_owned());
    names.push(second.to_owned());
    assert(names.deep_view() =~= seq![first@, second@]);
    names
}

fn define_tool(
    name: &str,
    description: &str,
    properties: Vec<ParameterSchema>,
    required: Vec<String>,
) -> (r: ToolDefinition)
    ensures
        r@ == tool(name@, description@, properties.deep_view(), required.deep_view()),
{
    ToolDefinition {
        name: name.to_owned(),
        description: description.to_owned(),
        parameters: ToolParameters { properties, required },
    }
}

/// All the tools on offer, in the order of [`available_tools`].
pub fn get_available_tools() -> (r: Vec<ToolDefinition>)
    ensures
        r.deep_view() == available_tools(),
{
    let mut tools: Vec<ToolDefinition> = Vec::new();
    tools.push(
        define_tool(
            "read_file",
            "Read the contents of a file",
            one_property("path", "The path to the file to read"),
            one_name("path"),
        ),
    );
    tools.push(
        define_tool(
            "write_file",
            "Write content to a file",
            two_properties(
                "path",
                "The path to the file to write",
                "content",
                "The content to write to the file",
            ),
            two_names("path", "content"),
        ),
    );
    tools.push(
        define_tool(
            "list_files",
            "List files in a directory",
            one_property("path", "The directory path to list"),
            one_name("path"),
        ),
    );
    tools.push(
        define_tool(
            "search_code",
            "Search for code patterns in the codebase",
            two_properties(
                "query",
                "The search query",
                "path",
                "Optional path to search in",
            ),
            one_name("query"),
        ),
    );
    tools.push(
        define_tool(
            "run_command",
            "Run a shell command",
            two_properties(
                "command",
                "The command to run",
                "cwd",
                "Working directory (optional)",
            ),
            one_name("command"),
        ),
    );
    assert(tools.deep_view() =~= available_tools());
    tools
}

/// A tool at work. Users of the library implement it for tools of their own;
/// the library promises nothing of what an implementation does.
pub trait Tool: Send + Sync {
    /// The tool's name.
    fn name(&self) -> &str;

    /// What the tool is for.
    fn description(&self) -> &str;

    /// The parameters that a call must or may give.
    fn parameters(&self) -> ToolParameters;

    /// Runs the tool and returns what it has to say.
    fn execute(&self, arguments: Value) -> Result<String, ToolError>;
}

/// What a tool call asks the host to do.
#[derive(Debug)]
pub enum ToolAction {
    /// Read the file at `path` and answer with what it holds.
    ReadFile { path: String },
    /// Write `content` to the file at `path` and answer with
    /// [`write_file_report`].
    WriteFile { path: String, content: String },
    /// List the directory at `path` and answer with [`list_files_report`].
    ListFiles { path: String },
    /// Answer with [`search_code_report`]: nothing is searched yet.
    SearchCode { query: String },
    /// Run `command` in a shell, in the directory `cwd` if there is one, and
    /// answer with [`run_command_report`].
    RunCommand { command: String, cwd: Option<String> },
}

/// A [`ToolAction`] as the contracts see it.
pub ghost enum ToolActionView {
    ReadFile { path: Seq<char> },
    WriteFile { path: Seq<char>, content: Seq<char> },
    ListFiles { path: Seq<char> },
    SearchCode { query: Seq<char> },
    RunCommand { command: Seq<char>, cwd: Option<Seq<char>> },
}

impl View for ToolAction {
    type V = ToolActionView;

    open spec fn view(&self) -> ToolActionView {
        match self {
            ToolAction::ReadFile { path } => ToolActionView::ReadFile { path: path@ },
            ToolAction::WriteFile { path, content } => ToolActionView::WriteFile {
                path: path@,
                content: content@,
            },
            ToolAction::ListFiles { path } => ToolActionView::ListFiles { path: path@ },
            ToolAction::SearchCode { query } => ToolActionView::SearchCode { query: query@ },
            ToolAction::RunCommand { command, cwd } => ToolActionView::RunCommand {
                command: command@,
                cwd: match cwd {
                    Some(dir) => Some(dir@),
                    None => None,
                },
            },
        }
    }
}

/// Why a tool call came to nothing.
#[derive(Debug)]
pub enum ToolError {
    /// The arguments lack the string named here.
    Missing(String),
    /// No tool has this name.
    UnknownTool(String),
    /// The host could not do what the tool asked; this is what it reported.
    Failed(String),
}

/// A [`ToolError`] as the contracts see it.
pub ghost enum ToolErrorView {
    Missing(Seq<char>),
    UnknownTool(Seq<char>),
    Failed(Seq<char>),
}

impl ToolErrorView {
    /// The error in words.
    pub open spec fn message(self) -> Seq<char> {
        match self {
            ToolErrorView::Missing(key) => "Missing "@ + key,
            ToolErrorView::UnknownTool(name) => "Unknown tool: "@ + name,
            ToolErrorView::Failed(report) => report,
        }
    }
}

impl View for ToolError {
    type V = ToolErrorView;

    open spec fn view(&self) -> ToolErrorView {
        match self {
            ToolError::Missing(key) => ToolErrorView::Missing(key@),
            ToolError::UnknownTool(name) => ToolErrorView::UnknownTool(name@),
            ToolError::Failed(report) => ToolErrorView::Failed(report@),
        }
    }
}

impl ToolError {
    /// The error in words.
    pub fn message(&self) -> (r: String)
        ensures
            r@ == self@.message(),
    {
        match self {
            ToolError::Missing(key) => concat2("Missing ", key.as_str()),
            ToolError::UnknownTool(name) => concat2("Unknown tool: ", name.as_str()),
            ToolError::Failed(report) => report.clone(),
        }
    }
}

/// The string under `key` among the arguments, or the error that it is missing.
pub open spec fn required(arguments: Map<Seq<char>, Seq<char>>, key: Seq<char>) -> Result<
    Seq<char>,
    ToolErrorView,
> {
    if arguments.contains_key(key) {
        Ok(arguments[key])
    } else {
        Err(ToolErrorView::Missing(key))
    }
}

/// The string under `key` among the arguments, if there is one.
pub open spec fn optional(arguments: Map<Seq<char>, Seq<char>>, key: Seq<char>) -> Option<
    Seq<char>,
> {
    if arguments.contains_key(key) {
        Some(arguments[key])
    } else {
        None
    }
}

/// What the tool called `name` does with the string-valued `arguments`, or why
/// it cannot be called. A missing path is reported before missing content.
pub open spec fn planned(name: Seq<char>, arguments: Map<Seq<char>, Seq<char>>) -> Result<
    ToolActionView,
    ToolErrorView,
> {
    if name == "read_file"@ {
        match required(arguments, "path"@) {
            Ok(path) => Ok(ToolActionView::ReadFile { path }),
            Err(error) => Err(error),
        }
    } else if name == "write_file"@ {
        match required(arguments, "path"@) {
            Ok(path) => match required(arguments, "content"@) {
                Ok(content) => Ok(ToolActionView::WriteFile { path, content }),
                Err(error) => Err(error),
            },
            Err(error) => Err(error),
        }
    } else if name == "list_files"@ {
        match required(arguments, "path"@) {
            Ok(path) => Ok(ToolActionView::ListFiles { path }),
            Err(error) => Err(error),
        }
    } else if name == "search_code"@ {
        match required(arguments, "query"@) {
            Ok(query) => Ok(ToolActionView::SearchCode { query }),
            Err(error) => Err(error),
        }
    } else if name == "run_command"@ {
        match required(arguments, "command"@) {
            Ok(command) => Ok(
                ToolActionView::RunCommand { command, cwd: optional(arguments, "cwd"@) },
            ),
            Err(error) => Err(error),
        }
    } else {
        Err(ToolErrorView::UnknownTool(name))
    }
}

/// The view of a planning result.
pub open spec fn plan_view(plan: Result<ToolAction, ToolError>) -> Result<
    ToolActionView,
    ToolErrorView,
> {
    match plan {
        Ok(action) => Ok(action@),
        Err(error) => Err(error@),
    }
}

fn required_argument(arguments: &Value, key: &str) -> (r: Result<String, ToolError>)
    ensures
        match r {
            Ok(text) => required(string_members(*arguments), key@) == Ok::<
                Seq<char>,
                ToolErrorView,
            >(text@),
            Err(error) => required(string_members(*arguments), key@) == Err::<
                Seq<char>,
                ToolErrorView,
            >(error@),
        },
{
    match string_member(arguments, key) {
        Some(text) => Ok(text),
        None => Err(ToolError::Missing(key.to_owned())),
    }
}

/// Decides what a tool call asks of the host: the tool is found by its name
/// and its arguments are read from the string-valued members of `arguments`.
pub fn plan_tool(name: &str, arguments: &Value) -> (r: Result<ToolAction, ToolError>)
    ensures
        plan_view(r) == planned(name@, string_members(*arguments)),
{
    if same_text(name, "read_file") {
        match required_argument(arguments, "path") {
            Ok(path) => Ok(ToolAction::ReadFile { path }),
            Err(error) => Err(error),
        }
    } else if same_text(name, "write_file") {
        match required_argument(arguments, "path") {
            Ok(path) => match required_argument(arguments, "content") {
                Ok(content) => Ok(ToolAction::WriteFile { path, content }),
                Err(error) => Err(error),
            },
            Err(error) => Err(error),
        }
    } else if same_text(name, "list_files") {
        match required_argument(arguments, "path") {
            Ok(path) => Ok(ToolAction::ListFiles { path }),
            Err(error) => Err(error),
        }
    } else if same_text(name, "search_code") {
        match required_argument(arguments, "query") {
            Ok(query) => Ok(ToolAction::SearchCode { query }),
            Err(error) => Err(error),
        }
    } else if same_text(name, "run_command") {
        match required_argument(arguments, "command") {
            Ok(command) => {
                let cwd = string_member(arguments, "cwd");
                Ok(ToolAction::RunCommand { command, cwd })
            },
            Err(error) => Err(error),
        }
    } else {
        Err(ToolError::UnknownTool(name.to_owned()))
    }
}

/// What `write_file` answers once the file is written.
pub fn write_file_report(path: &str) -> (r: String)
    ensures
        r@ == "Successfully wrote to "@ + path@,
{
    concat2("Successfully wrote to ", path)
}

/// What `list_files` answers: the names found, one to a line.
pub fn list_files_report(entries: &Vec<String>) -> (r: String)
    ensures
        r@ == joined(entries.deep_view(), seq!['\n']),
{
    proof {
        reveal_strlit("\n");
        assert("\n"@ =~= seq!['\n']);
    }
    join(entries, "\n")
}

/// What `search_code` answers.
pub fn search_code_report(query: &str) -> (r: String)
    ensures
        r@ == "Searching for: "@ + query@,
{
    concat2("Searching for: ", query)
}

/// What `run_command` answers: what the command printed if it succeeded,
/// else both what it printed and what it complained of, under a heading.
pub fn run_command_report(success: bool, stdout: &str, stderr: &str) -> (r: String)
    ensures
        r@ == if success {
            stdout@
        } else {
            "Error:\n"@ + stdout@ + "\n"@ + stderr@
        },
{
    if success {
        stdout.to_owned()
    } else {
        let mut out = String::from_str("Error:\n");
        out.append(stdout);
        out.append("\n");
        out.append(stderr);
        out
    }
}

/// What goes into the transcript for a tool call: what the tool answered, or
/// its error in words after `Error: `.
pub fn tool_result_text(outcome: Result<String, ToolError>) -> (r: String)
    ensures
        r@ == match outcome {
            Ok(output) => output@,
            Err(error) => "Error: "@ + error@.message(),
        },
{
    match outcome {
        Ok(output) => output,
        Err(error) => {
            let message = error.message();
            concat2("Error: ", message.as_str())
        },
    }
}

/// Whether the arguments give every string that the tool requires.
pub open spec fn gives_required(
    tool: ToolDefinitionView,
    arguments: Map<Seq<char>, Seq<char>>,
) -> bool {
    forall|i: int|
        0 <= i < tool.parameters.required.len() ==> arguments.contains_key(
            #[trigger] tool.parameters.required[i],
        )
}

/// The names in the catalogue differ from one another.
pub proof fn tool_names_differ()
    ensures
        forall|i: int, j: int|
            0 <= i < j < available_tools().len() ==> available_tools()[i].name
                != available_tools()[j].name,
{
    reveal_strlit("read_file");
    reveal_strlit("write_file");
    reveal_strlit("list_files");
    reveal_strlit("search_code");
    reveal_strlit("run_command");
    assert("read_file"@[0] == 'r' && "read_file"@[1] == 'e');
    assert("write_file"@[0] == 'w');
    assert("list_files"@[0] == 'l');
    assert("search_code"@[0] == 's');
    assert("run_command"@[0] == 'r' && "run_command"@[1] == 'u');
}

/// The planner and the catalogue agree: a call can be planned exactly when it
/// names a tool of the catalogue and gives every string that this tool
/// requires.
pub proof fn planner_matches_catalogue(name: Seq<char>, arguments: Map<Seq<char>, Seq<char>>)
    ensures
        planned(name, arguments) is Ok <==> exists|i: int|
            0 <= i < available_tools().len() && #[trigger] available_tools()[i].name == name
                && gives_required(available_tools()[i], arguments),
{
    tool_names_differ();
    let tools = available_tools();
    assert(tools[0].parameters.required =~= seq!["path"@]);
    assert(tools[1].parameters.required =~= seq!["path"@, "content"@]);
    assert(tools[2].parameters.required =~= seq!["path"@]);
    assert(tools[3].parameters.required =~= seq!["query"@]);
    assert(tools[4].parameters.required =~= seq!["command"@]);
    if planned(name, arguments) is Ok {
        let i: int = if name == "read_file"@ {
            0
        } else if name == "write_file"@ {
            1
        } else if name == "list_files"@ {
            2
        } else if name == "search_code"@ {
            3
        } else {
            4
        };
        assert(tools[i].name == name);
        assert(gives_required(tools[i], arguments));
    }
    if exists|i: int|
        0 <= i < tools.len() && #[trigger] tools[i].name == name && gives_required(
            tools[i],
            arguments,
        ) {
        let i = choose|i: int|
            0 <= i < tools.len() && #[trigger] tools[i].name == name && gives_required(
                tools[i],
                arguments,
            );
        let required = tools[i].parameters.required;
        assert(arguments.contains_key(required[0]));
        if i == 1 {
            assert(arguments.contains_key(required[1]));
        }
    }
}

} // verus!
