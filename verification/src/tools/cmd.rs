//! The `run_command` tool: a PowerShell command run in a chosen directory.
use vstd::prelude::*;
use crate::args::{ArgValueView, ToolArgs, arg_text_or, text_arg, text_or};
use crate::text::{is_blank, is_blank_text, is_white_space, join_text, owned, utf8_lossy};
use super::{
    CommandOutput, CommandPlan, CommandPlanView, ToolResult, ToolResultView, failure,
    failure_view, list2, missing_arguments, output_texts, success, success_view,
};

verus! {

/// The command text: the `command` argument, or the empty text.
pub open spec fn command_text(args: Map<Seq<char>, ArgValueView>) -> Seq<char> {
    text_or(text_arg(args, "command"@), ""@)
}

/// The directory the command runs in: the `cwd` argument, or the default.
pub open spec fn command_dir(args: Map<Seq<char>, ArgValueView>) -> Seq<char> {
    text_or(text_arg(args, "cwd"@), "C:\\Users\\ferta\\Documents\\GitHub\\MCP-server"@)
}

/// What `run_command` runs: `powershell -Command <command>` in the directory;
/// without an arguments object, nothing but an error answer.
pub open spec fn run_command_plan_view(args: Option<Map<Seq<char>, ArgValueView>>) -> Result<
    CommandPlanView,
    ToolResultView,
> {
    match args {
        Some(a) => Ok(
            CommandPlanView {
                program: "powershell"@,
                args: seq!["-Command"@, command_text(a)],
                cwd: Some(command_dir(a)),
            },
        ),
        None => Err(failure_view("Arguments manquants"@)),
    }
}

/// What `run_command` runs.
pub fn run_command_plan(args: Option<&ToolArgs>) -> (r: Result<CommandPlan, ToolResult>)
    ensures
        match (args, r) {
            (Some(a), Ok(p)) => run_command_plan_view(Some(a@)) == Ok::<
                CommandPlanView,
                ToolResultView,
            >(p@),
            (None, Err(e)) => run_command_plan_view(None) == Err::<CommandPlanView, ToolResultView>(
                e@,
            ),
            _ => false,
        },
{
    match args {
        Some(a) => {
            let command = arg_text_or(Some(a), "command", "");
            let dir = arg_text_or(Some(a), "cwd", "C:\\Users\\ferta\\Documents\\GitHub\\MCP-server");
            Ok(
                CommandPlan {
                    program: owned("powershell"),
                    args: list2(owned("-Command"), command),
                    cwd: Some(dir),
                },
            )
        },
        None => Err(missing_arguments()),
    }
}

/// The first line of the text of `run_command`: where and what was run.
pub open spec fn run_command_info(dir: Seq<char>, command: Seq<char>) -> Seq<char> {
    "Dossier: "@ + dir + "\nCommande: "@ + command
}

/// The text of `run_command`: where and what was run, then the output, with
/// the error stream under its own header when that is not empty.
pub open spec fn run_command_text(dir: Seq<char>, command: Seq<char>, stdout: Seq<char>, stderr: Seq<
    char,
>) -> Seq<char> {
    let info = run_command_info(dir, command);
    let r = if stderr.len() != 0 {
        info + "\n"@ + stdout + "\nErreur/Warn:\n"@ + stderr
    } else {
        info + "\n----\n"@ + stdout
    };
    if is_blank_text(r) {
        "(Sortie vide)"@
    } else {
        r
    }
}

/// The answer of `run_command` from the decoded output streams.
pub fn run_command_report(dir: &str, command: &str, stdout: &str, stderr: &str) -> (r: ToolResult)
    ensures
        r@ == success_view(run_command_text(dir@, command@, stdout@, stderr@)),
{
    let a = join_text("Dossier: ", dir);
    let b = join_text(a.as_str(), "\nCommande: ");
    let info = join_text(b.as_str(), command);
    let out = if !stderr.is_empty() {
        let c = join_text(info.as_str(), "\n");
        let d = join_text(c.as_str(), stdout);
        let e = join_text(d.as_str(), "\nErreur/Warn:\n");
        join_text(e.as_str(), stderr)
    } else {
        let c = join_text(info.as_str(), "\n----\n");
        join_text(c.as_str(), stdout)
    };
    if is_blank(out.as_str()) {
        success(owned("(Sortie vide)"))
    } else {
        success(out)
    }
}

/// The answer of `run_command` from the outcome of launching PowerShell.
pub fn run_command_result(args: &ToolArgs, outcome: &Result<CommandOutput, String>) -> (r:
    ToolResult)
    ensures
        match outcome {
            Ok(out) => r@ == success_view(
                run_command_text(
                    command_dir(args@),
                    command_text(args@),
                    utf8_lossy(out.stdout@),
                    utf8_lossy(out.stderr@),
                ),
            ),
            Err(e) => r@ == failure_view("Erreur d'exécution: "@ + e@),
        },
{
    match outcome {
        Ok(out) => {
            let command = arg_text_or(Some(args), "command", "");
            let dir = arg_text_or(Some(args), "cwd", "C:\\Users\\ferta\\Documents\\GitHub\\MCP-server");
            let (stdout, stderr) = output_texts(out);
            run_command_report(dir.as_str(), command.as_str(), stdout.as_str(), stderr.as_str())
        },
        Err(e) => failure(join_text("Erreur d'exécution: ", e.as_str())),
    }
}

/// The text of `run_command` always begins with the directory and the
/// command that were run, so it is never blank.
pub proof fn lemma_run_command_text_names_the_command(
    dir: Seq<char>,
    command: Seq<char>,
    stdout: Seq<char>,
    stderr: Seq<char>,
)
    ensures
        run_command_text(dir, command, stdout, stderr).len() >= run_command_info(dir, command).len(),
        run_command_text(dir, command, stdout, stderr).subrange(
            0,
            run_command_info(dir, command).len() as int,
        ) == run_command_info(dir, command),
        !is_blank_text(run_command_text(dir, command, stdout, stderr)),
{
    reveal_strlit("Dossier: ");
    let info = run_command_info(dir, command);
    let r = if stderr.len() != 0 {
        info + "\n"@ + stdout + "\nErreur/Warn:\n"@ + stderr
    } else {
        info + "\n----\n"@ + stdout
    };
    assert(r[0] == 'D');
    assert(!is_white_space(r[0]));
    assert(!is_blank_text(r));
    assert(r.subrange(0, info.len() as int) =~= info);
}

} // verus!
