//! The tools that a client can call. Each tool is split into what it decides
//! before touching the system (a plan), and what it answers once the system
//! has done the work (a result built from the outcome).
use vstd::prelude::*;

pub mod cmd;
pub mod file;
pub mod git;
pub mod obsidian;

verus! {

/// The answer of a tool: a text, flagged as an error or not.
pub struct ToolResult {
    pub is_error: bool,
    pub text: String,
}

/// The mathematical value of a `ToolResult`.
pub struct ToolResultView {
    pub is_error: bool,
    pub text: Seq<char>,
}

impl View for ToolResult {
    type V = ToolResultView;

    open spec fn view(&self) -> ToolResultView {
        ToolResultView { is_error: self.is_error, text: self.text@ }
    }
}

/// A successful answer carrying `text`.
pub open spec fn success_view(text: Seq<char>) -> ToolResultView {
    ToolResultView { is_error: false, text }
}

/// An error answer carrying `text`.
pub open spec fn failure_view(text: Seq<char>) -> ToolResultView {
    ToolResultView { is_error: true, text }
}

/// A successful answer.
pub fn success(text: String) -> (r: ToolResult)
    ensures
        r@ == success_view(text@),
{
    ToolResult { is_error: false, text }
}

/// An error answer.
pub fn failure(text: String) -> (r: ToolResult)
    ensures
        r@ == failure_view(text@),
{
    ToolResult { is_error: true, text }
}

/// The answer to a call whose arguments object is missing.
pub fn missing_arguments() -> (r: ToolResult)
    ensures
        r@ == failure_view("Arguments manquants"@),
{
    failure(crate::text::owned("Arguments manquants"))
}

/// A program to run: its name, its arguments and the directory to run it in.
pub struct CommandPlan {
    pub program: String,
    pub args: Vec<String>,
    pub cwd: Option<String>,
}

/// The mathematical value of a `CommandPlan`.
pub struct CommandPlanView {
    pub program: Seq<char>,
    pub args: Seq<Seq<char>>,
    pub cwd: Option<Seq<char>>,
}

/// The texts of a list of strings.
pub open spec fn texts(v: Seq<String>) -> Seq<Seq<char>> {
    v.map_values(|s: String| s@)
}

impl View for CommandPlan {
    type V = CommandPlanView;

    open spec fn view(&self) -> CommandPlanView {
        CommandPlanView {
            program: self.program@,
            args: texts(self.args@),
            cwd: match self.cwd {
                Some(c) => Some(c@),
                None => None,
            },
        }
    }
}

/// What a finished program left: its output streams, whether it exited
/// successfully, and the text of its exit status.
pub struct CommandOutput {
    pub stdout: Vec<u8>,
    pub stderr: Vec<u8>,
    pub success: bool,
    pub status: String,
}

/// The texts of a finished program's output and error streams, decoded as
/// `String::from_utf8_lossy` does.
pub fn output_texts(out: &CommandOutput) -> (r: (String, String))
    ensures
        r.0@ == crate::text::utf8_lossy(out.stdout@),
        r.1@ == crate::text::utf8_lossy(out.stderr@),
{
    (crate::text::lossy_text(out.stdout.as_slice()), crate::text::lossy_text(out.stderr.as_slice()))
}

/// A list of one string.
pub fn list1(a: String) -> (v: Vec<String>)
    ensures
        texts(v@) == seq![a@],
{
    let mut v = Vec::new();
    v.push(a);
    assert(texts(v@) =~= seq![a@]);
    v
}

/// A list of two strings.
pub fn list2(a: String, b: String) -> (v: Vec<String>)
    ensures
        texts(v@) == seq![a@, b@],
{
    let mut v = Vec::new();
    v.push(a);
    v.push(b);
    assert(texts(v@) =~= seq![a@, b@]);
    v
}

/// A list of three strings.
pub fn list3(a: String, b: String, c: String) -> (v: Vec<String>)
    ensures
        texts(v@) == seq![a@, b@, c@],
{
    let mut v = Vec::new();
    v.push(a);
    v.push(b);
    v.push(c);
    assert(texts(v@) =~= seq![a@, b@, c@]);
    v
}

} // verus!
