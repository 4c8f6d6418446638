//! The server side of the protocol: which requests get an answer, which tool
//! a call names, and the confirmation that a call may need before it runs.
use vstd::prelude::*;
use crate::text::{join_text, owned, same_text};
use crate::tools::{ToolResult, ToolResultView, failure, failure_view};

verus! {

/// The tools that the server offers.
#[derive(Clone, Copy, Debug, PartialEq, Eq, Structural)]
pub enum Tool {
    GitAdd,
    GitCommit,
    GitStatus,
    WriteFile,
    ReadFile,
    ReplaceTextInFile,
    RenameFile,
    RunCommand,
    ObsidianCreate,
    ObsidianAppend,
    ObsidianRead,
    ObsidianSearch,
}

/// The name under which a tool is called.
pub open spec fn tool_name(t: Tool) -> Seq<char> {
    match t {
        Tool::GitAdd => "git_add"@,
        Tool::GitCommit => "git_commit"@,
        Tool::GitStatus => "git_status"@,
        Tool::WriteFile => "write_file"@,
        Tool::ReadFile => "read_file"@,
        Tool::ReplaceTextInFile => "replace_text_in_file"@,
        Tool::RenameFile => "rename_file"@,
        Tool::RunCommand => "run_command"@,
        Tool::ObsidianCreate => "obsidian_create"@,
        Tool::ObsidianAppend => "obsidian_append"@,
        Tool::ObsidianRead => "obsidian_read"@,
        Tool::ObsidianSearch => "obsidian_search"@,
    }
}

/// The tool that a call names, if any.
pub open spec fn tool_named(name: Seq<char>) -> Option<Tool> {
    if name == "git_add"@ {
        Some(Tool::GitAdd)
    } else if name == "git_commit"@ {
        Some(Tool::GitCommit)
    } else if name == "git_status"@ {
        Some(Tool::GitStatus)
    } else if name == "write_file"@ {
        Some(Tool::WriteFile)
    } else if name == "read_file"@ {
        Some(Tool::ReadFile)
    } else if name == "replace_text_in_file"@ {
        Some(Tool::ReplaceTextInFile)
    } else if name == "rename_file"@ {
        Some(Tool::RenameFile)
    } else if name == "run_command"@ {
        Some(Tool::RunCommand)
    } else if name == "obsidian_create"@ {
        Some(Tool::ObsidianCreate)
    } else if name == "obsidian_append"@ {
        Some(Tool::ObsidianAppend)
    } else if name == "obsidian_read"@ {
        Some(Tool::ObsidianRead)
    } else if name == "obsidian_search"@ {
        Some(Tool::ObsidianSearch)
    } else {
        None
    }
}

/// The tool that a call names, if any.
pub fn tool_for_name(name: &str) -> (r: Option<Tool>)
    ensures
        r == tool_named(name@),
{
    if same_text(name, "git_add") {
        Some(Tool::GitAdd)
    } else if same_text(name, "git_commit") {
        Some(Tool::GitCommit)
    } else if same_text(name, "git_status") {
        Some(Tool::GitStatus)
    } else if same_text(name, "write_file") {
        Some(Tool::WriteFile)
    } else if same_text(name, "read_file") {
        Some(Tool::ReadFile)
    } else if same_text(name, "replace_text_in_file") {
        Some(Tool::ReplaceTextInFile)
    } else if same_text(name, "rename_file") {
        Some(Tool::RenameFile)
    } else if same_text(name, "run_command") {
        Some(Tool::RunCommand)
    } else if same_text(name, "obsidian_create") {
        Some(Tool::ObsidianCreate)
    } else if same_text(name, "obsidian_append") {
        Some(Tool::ObsidianAppend)
    } else if same_text(name, "obsidian_read") {
        Some(Tool::ObsidianRead)
    } else if same_text(name, "obsidian_search") {
        Some(Tool::ObsidianSearch)
    } else {
        None
    }
}

/// Each tool is found again under its own name: no two tools share a name.
pub proof fn lemma_tool_name_round_trip(t: Tool)
    ensures
        tool_named(tool_name(t)) == Some(t),
{
    reveal_strlit("git_add");
    reveal_strlit("git_commit");
    reveal_strlit("git_status");
    reveal_strlit("write_file");
    reveal_strlit("read_file");
    reveal_strlit("replace_text_in_file");
    reveal_strlit("rename_file");
    reveal_strlit("run_command");
    reveal_strlit("obsidian_create");
    reveal_strlit("obsidian_append");
    reveal_strlit("obsidian_read");
    reveal_strlit("obsidian_search");
    assert("git_commit"@[4] != "git_add"@[4]);
    assert("git_status"@[4] != "git_add"@[4]);
    assert("git_status"@[4] != "git_commit"@[4]);
    assert("write_file"@[0] != "git_add"@[0]);
    assert("read_file"@[0] != "git_add"@[0]);
    assert("replace_text_in_file"@[0] != "git_add"@[0]);
    assert("rename_file"@[0] != "git_add"@[0]);
    assert("run_command"@[0] != "git_add"@[0]);
    assert("obsidian_create"@[0] != "git_add"@[0]);
    assert("obsidian_append"@[0] != "git_add"@[0]);
    assert("obsidian_read"@[0] != "git_add"@[0]);
    assert("obsidian_search"@[0] != "git_add"@[0]);
    assert("write_file"@[0] != "git_commit"@[0]);
    assert("read_file"@[0] != "git_commit"@[0]);
    assert("replace_text_in_file"@[0] != "git_commit"@[0]);
    assert("rename_file"@[0] != "git_commit"@[0]);
    assert("run_command"@[0] != "git_commit"@[0]);
    assert("obsidian_create"@[0] != "git_commit"@[0]);
    assert("obsidian_append"@[0] != "git_commit"@[0]);
    assert("obsidian_read"@[0] != "git_commit"@[0]);
    assert("obsidian_search"@[0] != "git_commit"@[0]);
    assert("write_file"@[0] != "git_status"@[0]);
    assert("read_file"@[0] != "git_status"@[0]);
    assert("replace_text_in_file"@[0] != "git_status"@[0]);
    assert("rename_file"@[0] != "git_status"@[0]);
    assert("run_command"@[0] != "git_status"@[0]);
    assert("obsidian_create"@[0] != "git_status"@[0]);
    assert("obsidian_append"@[0] != "git_status"@[0]);
    assert("obsidian_read"@[0] != "git_status"@[0]);
    assert("obsidian_search"@[0] != "git_status"@[0]);
    assert("read_file"@[0] != "write_file"@[0]);
    assert("replace_text_in_file"@[0] != "write_file"@[0]);
    assert("rename_file"@[0] != "write_file"@[0]);
    assert("run_command"@[0] != "write_file"@[0]);
    assert("obsidian_create"@[0] != "write_file"@[0]);
    assert("obsidian_append"@[0] != "write_file"@[0]);
    assert("obsidian_read"@[0] != "write_file"@[0]);
    assert("obsidian_search"@[0] != "write_file"@[0]);
    assert("replace_text_in_file"@[2] != "read_file"@[2]);
    assert("rename_file"@[2] != "read_file"@[2]);
    assert("run_command"@[1] != "read_file"@[1]);
    assert("obsidian_create"@[0] != "read_file"@[0]);
    assert("obsidian_append"@[0] != "read_file"@[0]);
    assert("obsidian_read"@[0] != "read_file"@[0]);
    assert("obsidian_search"@[0] != "read_file"@[0]);
    assert("rename_file"@[2] != "replace_text_in_file"@[2]);
    assert("run_command"@[1] != "replace_text_in_file"@[1]);
    assert("obsidian_create"@[0] != "replace_text_in_file"@[0]);
    assert("obsidian_append"@[0] != "replace_text_in_file"@[0]);
    assert("obsidian_read"@[0] != "replace_text_in_file"@[0]);
    assert("obsidian_search"@[0] != "replace_text_in_file"@[0]);
    assert("run_command"@[1] != "rename_file"@[1]);
    assert("obsidian_create"@[0] != "rename_file"@[0]);
    assert("obsidian_append"@[0] != "rename_file"@[0]);
    assert("obsidian_read"@[0] != "rename_file"@[0]);
    assert("obsidian_search"@[0] != "rename_file"@[0]);
    assert("obsidian_create"@[0] != "run_command"@[0]);
    assert("obsidian_append"@[0] != "run_command"@[0]);
    assert("obsidian_read"@[0] != "run_command"@[0]);
    assert("obsidian_search"@[0] != "run_command"@[0]);
    assert("obsidian_append"@[9] != "obsidian_create"@[9]);
    assert("obsidian_read"@[9] != "obsidian_create"@[9]);
    assert("obsidian_search"@[9] != "obsidian_create"@[9]);
    assert("obsidian_read"@[10] != "obsidian_append"@[10]);
    assert("obsidian_search"@[9] != "obsidian_append"@[9]);
    assert("obsidian_search"@[9] != "obsidian_read"@[9]);
}

// ------------------------------------------------------------ a tool call

/// The name of a call: the `name` parameter when it is a string, else the
/// empty name.
pub open spec fn call_name(name: Option<Seq<char>>) -> Seq<char> {
    match name {
        Some(n) => n,
        None => ""@,
    }
}

/// The view of an optional text.
pub open spec fn opt_text(s: Option<&str>) -> Option<Seq<char>> {
    match s {
        Some(t) => Some(t@),
        None => None,
    }
}

fn call_name_exec(name: Option<&str>) -> (r: String)
    ensures
        r@ == call_name(opt_text(name)),
{
    match name {
        Some(n) => owned(n),
        None => owned(""),
    }
}

/// The title of the dialog that asks the user to allow a call.
pub fn confirmation_title() -> (r: String)
    ensures
        r@ == "Exécution d'une commande système"@,
{
    owned("Exécution d'une commande système")
}

/// The text of the dialog that asks the user to allow a call: the name of
/// the tool, then its arguments as pretty-printed JSON, or a note that there
/// are none.
pub open spec fn confirmation_text(name: Seq<char>, args_json: Option<Seq<char>>) -> Seq<char> {
    let args = match args_json {
        Some(j) => j,
        None => "Aucun argument"@,
    };
    "L'IA souhaite exécuter l'outil : '"@ + name + "'\n\nArguments :\n"@ + args
}

/// The answer to a call that the user did not allow.
pub open spec fn cancelled_view() -> ToolResultView {
    failure_view("Action annulée par l'utilisateur."@)
}

/// The answer to a call of a tool that does not exist.
pub open spec fn unknown_tool_view() -> ToolResultView {
    failure_view("Outil inconnu"@)
}

/// The next step of a tool call.
pub enum CallStep {
    /// Ask the user, with this text, whether the call may run.
    Confirm(String),
    /// Run this tool with the call's arguments.
    Run(Tool),
    /// Answer the call with this result, without running anything.
    Finish(ToolResult),
}

/// `step` sends the call named `name` to its tool, or answers that there is
/// no such tool.
pub open spec fn dispatches(step: CallStep, name: Seq<char>) -> bool {
    match tool_named(name) {
        Some(t) => step == CallStep::Run(t),
        None => step matches CallStep::Finish(res) && res@ == unknown_tool_view(),
    }
}

fn dispatch(name: &str) -> (r: CallStep)
    ensures
        dispatches(r, name@),
{
    match tool_for_name(name) {
        Some(t) => CallStep::Run(t),
        None => CallStep::Finish(failure(owned("Outil inconnu"))),
    }
}

/// The first step of a call of the tool `name` (the `name` parameter when it
/// is a string), whose arguments pretty-print as `args_json` (`None` when the
/// call has no arguments object): ask the user first when confirmation is
/// required, else go straight to the tool.
pub fn tool_call_start(name: Option<&str>, args_json: Option<&str>, require_confirmation: bool) -> (r:
    CallStep)
    ensures
        require_confirmation ==> (r matches CallStep::Confirm(text) && text@ == confirmation_text(
            call_name(opt_text(name)),
            opt_text(args_json),
        )),
        !require_confirmation ==> dispatches(r, call_name(opt_text(name))),
{
    let n = call_name_exec(name);
    if require_confirmation {
        let args = match args_json {
            Some(j) => owned(j),
            None => owned("Aucun argument"),
        };
        let a = join_text("L'IA souhaite exécuter l'outil : '", n.as_str());
        let b = join_text(a.as_str(), "'\n\nArguments :\n");
        CallStep::Confirm(join_text(b.as_str(), args.as_str()))
    } else {
        dispatch(n.as_str())
    }
}

/// The step of a call once the user has answered: a call that the user did
/// not allow is answered as cancelled and never runs.
pub fn tool_call_confirmed(name: Option<&str>, allowed: bool) -> (r: CallStep)
    ensures
        !allowed ==> (r matches CallStep::Finish(res) && res@ == cancelled_view()),
        allowed ==> dispatches(r, call_name(opt_text(name))),
{
    if allowed {
        let n = call_name_exec(name);
        dispatch(n.as_str())
    } else {
        CallStep::Finish(failure(owned("Action annulée par l'utilisateur.")))
    }
}

// ---------------------------------------------------------------- requests

/// Whether the server asks the user before each call: unless it was started
/// with `--auto-approve`.
pub open spec fn asks_confirmation(cli_args: Seq<Seq<char>>) -> bool {
    !cli_args.contains("--auto-approve"@)
}

/// Whether the server asks the user before each call.
pub fn requires_confirmation(cli_args: &Vec<String>) -> (r: bool)
    ensures
        r == asks_confirmation(crate::tools::texts(cli_args@)),
{
    let mut i: usize = 0;
    while i < cli_args.len()
        invariant
            i <= cli_args.len(),
            forall|j: int| 0 <= j < i ==> cli_args@[j]@ != "--auto-approve"@,
        decreases cli_args.len() - i,
    {
        if same_text(cli_args[i].as_str(), "--auto-approve") {
            assert(crate::tools::texts(cli_args@)[i as int] == "--auto-approve"@);
            return false;
        }
        i = i + 1;
    }
    assert(!crate::tools::texts(cli_args@).contains("--auto-approve"@)) by {
        if crate::tools::texts(cli_args@).contains("--auto-approve"@) {
            let j = choose|j: int|
                0 <= j < crate::tools::texts(cli_args@).len() && crate::tools::texts(
                    cli_args@,
                )[j] == "--auto-approve"@;
            assert(cli_args@[j]@ == "--auto-approve"@);
        }
    }
    true
}

/// What the server sends back for a request.
#[derive(Clone, Copy, Debug, PartialEq, Eq, Structural)]
pub enum Reply {
    /// The server's description (protocol version, name, capabilities).
    Initialize,
    /// The list of tools.
    ToolList,
    /// The result of a tool call.
    ToolCall,
    /// Nothing.
    Nothing,
}

/// The reply to a request with method `method`: only a request with an id
/// is answered, and a tool call also needs its parameters.
pub open spec fn reply_for(method: Seq<char>, has_id: bool, has_params: bool) -> Reply {
    if !has_id {
        Reply::Nothing
    } else if method == "initialize"@ {
        Reply::Initialize
    } else if method == "tools/list"@ {
        Reply::ToolList
    } else if method == "tools/call"@ && has_params {
        Reply::ToolCall
    } else {
        Reply::Nothing
    }
}

/// The reply to a request. A notification (a request without an id) is
/// never answered.
pub fn route_request(method: &str, has_id: bool, has_params: bool) -> (r: Reply)
    ensures
        r == reply_for(method@, has_id, has_params),
        !has_id ==> r == Reply::Nothing,
{
    if !has_id {
        Reply::Nothing
    } else if same_text(method, "initialize") {
        Reply::Initialize
    } else if same_text(method, "tools/list") {
        Reply::ToolList
    } else if same_text(method, "tools/call") && has_params {
        Reply::ToolCall
    } else {
        Reply::Nothing
    }
}

/// Whether a request other than `tools/call` is answered depends only on its
/// method and its id: `initialize` and `tools/list` with an id are always
/// answered, with or without parameters.
pub proof fn lemma_replies_ignore_params(method: Seq<char>, has_params: bool)
    ensures
        reply_for("initialize"@, true, has_params) == Reply::Initialize,
        reply_for("tools/list"@, true, has_params) == Reply::ToolList,
        method != "tools/call"@ ==> reply_for(method, true, has_params) == reply_for(
            method,
            true,
            !has_params,
        ),
        reply_for(method, false, has_params) == Reply::Nothing,
{
    reveal_strlit("initialize");
    reveal_strlit("tools/list");
    assert("tools/list"@[0] != "initialize"@[0]);
}

} // verus!
