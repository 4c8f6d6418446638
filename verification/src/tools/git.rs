//! The git tools: `git_add`, `git_commit` and `git_status`, run in the
//! repository that the `path` argument names.
use vstd::prelude::*;
use crate::args::{ArgValueView, ToolArgs, arg_text_or, opt_args_view, opt_text_arg, text_or};
use crate::text::{is_blank, is_blank_text, is_white_space, join_text, owned, utf8_lossy};
use super::{
    CommandOutput, CommandPlan, CommandPlanView, ToolResult, ToolResultView, failure,
    failure_view, list1, list2, list3, output_texts, success, success_view,
};

verus! {

/// The repository that the git tools use when no `path` is given.
pub open spec fn default_repo() -> Seq<char> {
    "C:\\Users\\ferta\\Documents\\GitHub\\MCP-server"@
}

/// The repository a git call runs in: the `path` argument, or the default.
pub open spec fn repo_path(args: Option<Map<Seq<char>, ArgValueView>>) -> Seq<char> {
    text_or(opt_text_arg(args, "path"@), default_repo())
}

/// The repository a git call runs in.
pub fn repo_path_of(args: Option<&ToolArgs>) -> (r: String)
    ensures
        r@ == repo_path(opt_args_view(args)),
{
    arg_text_or(args, "path", "C:\\Users\\ferta\\Documents\\GitHub\\MCP-server")
}

/// The output of a git command, followed by its error stream under a
/// warning header when that stream is not empty.
pub open spec fn with_warnings(stdout: Seq<char>, stderr: Seq<char>) -> Seq<char> {
    if stderr.len() == 0 {
        stdout
    } else {
        stdout + "\nErreur/Warn:\n"@ + stderr
    }
}

fn with_warnings_exec(stdout: &str, stderr: &str) -> (r: String)
    ensures
        r@ == with_warnings(stdout@, stderr@),
{
    if stderr.is_empty() {
        owned(stdout)
    } else {
        let head = join_text(stdout, "\nErreur/Warn:\n");
        join_text(head.as_str(), stderr)
    }
}

// ----------------------------------------------------------------- git_add

/// The files that `git_add` adds: the `files` argument, or `.`.
pub open spec fn add_files(args: Option<Map<Seq<char>, ArgValueView>>) -> Seq<char> {
    text_or(opt_text_arg(args, "files"@), "."@)
}

/// The command that `git_add` runs: `git add <files>` in the repository.
pub open spec fn git_add_plan_view(args: Option<Map<Seq<char>, ArgValueView>>) -> CommandPlanView {
    CommandPlanView {
        program: "git"@,
        args: seq!["add"@, add_files(args)],
        cwd: Some(repo_path(args)),
    }
}

/// The command that `git_add` runs.
pub fn git_add_plan(args: Option<&ToolArgs>) -> (p: CommandPlan)
    ensures
        p@ == git_add_plan_view(opt_args_view(args)),
{
    let path = repo_path_of(args);
    let files = arg_text_or(args, "files", ".");
    CommandPlan { program: owned("git"), args: list2(owned("add"), files), cwd: Some(path) }
}

/// The answer of `git_add` once git has run: its output (with warnings), or,
/// when that is blank, a message naming the added files.
pub open spec fn git_add_report_view(files: Seq<char>, stdout: Seq<char>, stderr: Seq<char>)
    -> ToolResultView {
    let r = with_warnings(stdout, stderr);
    if is_blank_text(r) {
        success_view("Fichier(s) "@ + files + " ajouté(s)."@)
    } else {
        success_view(r)
    }
}

/// The answer of `git_add` from the decoded output streams of git.
pub fn git_add_report(files: &str, stdout: &str, stderr: &str) -> (r: ToolResult)
    ensures
        r@ == git_add_report_view(files@, stdout@, stderr@),
{
    let out = with_warnings_exec(stdout, stderr);
    if is_blank(out.as_str()) {
        let head = join_text("Fichier(s) ", files);
        success(join_text(head.as_str(), " ajouté(s)."))
    } else {
        success(out)
    }
}

/// The answer of `git_add` from the outcome of launching git: the report
/// of its output, or the error that kept it from starting.
pub fn git_add_result(args: Option<&ToolArgs>, outcome: &Result<CommandOutput, String>) -> (r:
    ToolResult)
    ensures
        match outcome {
            Ok(out) => r@ == git_add_report_view(
                add_files(opt_args_view(args)),
                utf8_lossy(out.stdout@),
                utf8_lossy(out.stderr@),
            ),
            Err(e) => r@ == failure_view("Erreur git add : "@ + e@),
        },
{
    match outcome {
        Ok(out) => {
            let files = arg_text_or(args, "files", ".");
            let (stdout, stderr) = output_texts(out);
            git_add_report(files.as_str(), stdout.as_str(), stderr.as_str())
        },
        Err(e) => failure(join_text("Erreur git add : ", e.as_str())),
    }
}

// -------------------------------------------------------------- git_commit

/// The commit message: the `message` argument, or `Update`.
pub open spec fn commit_message(args: Option<Map<Seq<char>, ArgValueView>>) -> Seq<char> {
    text_or(opt_text_arg(args, "message"@), "Update"@)
}

/// The command that `git_commit` runs: `git commit -m <message>`.
pub open spec fn git_commit_plan_view(args: Option<Map<Seq<char>, ArgValueView>>) -> CommandPlanView {
    CommandPlanView {
        program: "git"@,
        args: seq!["commit"@, "-m"@, commit_message(args)],
        cwd: Some(repo_path(args)),
    }
}

/// The command that `git_commit` runs.
pub fn git_commit_plan(args: Option<&ToolArgs>) -> (p: CommandPlan)
    ensures
        p@ == git_commit_plan_view(opt_args_view(args)),
{
    let path = repo_path_of(args);
    let message = arg_text_or(args, "message", "Update");
    CommandPlan {
        program: owned("git"),
        args: list3(owned("commit"), owned("-m"), message),
        cwd: Some(path),
    }
}

/// The answer of `git_commit` from the decoded output streams of git.
pub fn git_commit_report(stdout: &str, stderr: &str) -> (r: ToolResult)
    ensures
        r@ == success_view(with_warnings(stdout@, stderr@)),
{
    success(with_warnings_exec(stdout, stderr))
}

/// The answer of `git_commit` from the outcome of launching git.
pub fn git_commit_result(outcome: &Result<CommandOutput, String>) -> (r: ToolResult)
    ensures
        match outcome {
            Ok(out) => r@ == success_view(
                with_warnings(utf8_lossy(out.stdout@), utf8_lossy(out.stderr@)),
            ),
            Err(e) => r@ == failure_view("Erreur git commit : "@ + e@),
        },
{
    match outcome {
        Ok(out) => {
            let (stdout, stderr) = output_texts(out);
            git_commit_report(stdout.as_str(), stderr.as_str())
        },
        Err(e) => failure(join_text("Erreur git commit : ", e.as_str())),
    }
}

// -------------------------------------------------------------- git_status

/// The command that `git_status` runs: `git status`.
pub open spec fn git_status_plan_view(args: Option<Map<Seq<char>, ArgValueView>>) -> CommandPlanView {
    CommandPlanView { program: "git"@, args: seq!["status"@], cwd: Some(repo_path(args)) }
}

/// The command that `git_status` runs.
pub fn git_status_plan(args: Option<&ToolArgs>) -> (p: CommandPlan)
    ensures
        p@ == git_status_plan_view(opt_args_view(args)),
{
    let path = repo_path_of(args);
    CommandPlan { program: owned("git"), args: list1(owned("status")), cwd: Some(path) }
}

/// The text of `git_status`: the directory it ran in, then the output of git,
/// with its error stream under its own header when that is not empty.
pub open spec fn git_status_text(path: Seq<char>, stdout: Seq<char>, stderr: Seq<char>) -> Seq<
    char,
> {
    let info = "Dossier courant d'exécution: "@ + path;
    let r = if stderr.len() != 0 {
        info + "\n"@ + stdout + "\nErreur Git:\n"@ + stderr
    } else {
        info + "\n----\n"@ + stdout
    };
    if is_blank_text(r) {
        "(Sortie vide)"@
    } else {
        r
    }
}

/// The answer of `git_status` from the decoded output streams of git.
pub fn git_status_report(path: &str, stdout: &str, stderr: &str) -> (r: ToolResult)
    ensures
        r@ == success_view(git_status_text(path@, stdout@, stderr@)),
{
    let info = join_text("Dossier courant d'exécution: ", path);
    let out = if !stderr.is_empty() {
        let a = join_text(info.as_str(), "\n");
        let b = join_text(a.as_str(), stdout);
        let c = join_text(b.as_str(), "\nErreur Git:\n");
        join_text(c.as_str(), stderr)
    } else {
        let a = join_text(info.as_str(), "\n----\n");
        join_text(a.as_str(), stdout)
    };
    if is_blank(out.as_str()) {
        success(owned("(Sortie vide)"))
    } else {
        success(out)
    }
}

/// The answer of `git_status` once git has run.
pub fn git_status_result(args: Option<&ToolArgs>, out: &CommandOutput) -> (r: ToolResult)
    ensures
        r@ == success_view(
            git_status_text(
                repo_path(opt_args_view(args)),
                utf8_lossy(out.stdout@),
                utf8_lossy(out.stderr@),
            ),
        ),
{
    let path = repo_path_of(args);
    let (stdout, stderr) = output_texts(out);
    git_status_report(path.as_str(), stdout.as_str(), stderr.as_str())
}

// ------------------------------------------------------------------ laws

/// `git_add` never answers with a blank text: when git says nothing, the
/// answer names the files instead.
pub proof fn lemma_git_add_answer_is_never_blank(files: Seq<char>, stdout: Seq<char>, stderr: Seq<
    char,
>)
    ensures
        !git_add_report_view(files, stdout, stderr).is_error,
        !is_blank_text(git_add_report_view(files, stdout, stderr).text),
{
    reveal_strlit("Fichier(s) ");
    let r = with_warnings(stdout, stderr);
    if is_blank_text(r) {
        let m = "Fichier(s) "@ + files + " ajouté(s)."@;
        assert(m[0] == 'F');
        assert(!is_white_space(m[0]));
    }
}

/// The text of `git_status` always begins with the directory it ran in, so
/// it is never blank.
pub proof fn lemma_git_status_text_names_the_directory(
    path: Seq<char>,
    stdout: Seq<char>,
    stderr: Seq<char>,
)
    ensures
        git_status_text(path, stdout, stderr).len() >= ("Dossier courant d'exécution: "@
            + path).len(),
        git_status_text(path, stdout, stderr).subrange(
            0,
            ("Dossier courant d'exécution: "@ + path).len() as int,
        ) == "Dossier courant d'exécution: "@ + path,
        !is_blank_text(git_status_text(path, stdout, stderr)),
{
    reveal_strlit("Dossier courant d'exécution: ");
    let info = "Dossier courant d'exécution: "@ + path;
    let r = if stderr.len() != 0 {
        info + "\n"@ + stdout + "\nErreur Git:\n"@ + stderr
    } else {
        info + "\n----\n"@ + stdout
    };
    assert(r[0] == 'D');
    assert(!is_white_space(r[0]));
    assert(!is_blank_text(r));
    assert(r.subrange(0, info.len() as int) =~= info);
}

/// Every git tool runs in the repository that the `path` argument names,
/// and, without one, all of them run in the same default repository.
pub proof fn lemma_git_tools_run_in_the_given_repository(
    args: Option<Map<Seq<char>, ArgValueView>>,
)
    ensures
        opt_text_arg(args, "path"@) matches Some(p) ==> {
            &&& git_add_plan_view(args).cwd == Some(p)
            &&& git_commit_plan_view(args).cwd == Some(p)
            &&& git_status_plan_view(args).cwd == Some(p)
        },
        opt_text_arg(args, "path"@) is None ==> {
            &&& git_add_plan_view(args).cwd == Some(
                "C:\\Users\\ferta\\Documents\\GitHub\\MCP-server"@,
            )
            &&& git_commit_plan_view(args).cwd == git_add_plan_view(args).cwd
            &&& git_status_plan_view(args).cwd == git_add_plan_view(args).cwd
        },
{
}

/// `git_status` runs git in the very directory that its answer names.
pub proof fn lemma_git_status_reports_where_it_ran(
    args: Option<Map<Seq<char>, ArgValueView>>,
    stdout: Seq<char>,
    stderr: Seq<char>,
)
    ensures
        git_status_plan_view(args).cwd matches Some(d) && git_status_text(
            repo_path(args),
            stdout,
            stderr,
        ).subrange(0, ("Dossier courant d'exécution: "@ + d).len() as int)
            == "Dossier courant d'exécution: "@ + d,
{
    lemma_git_status_text_names_the_directory(repo_path(args), stdout, stderr);
}

} // verus!
