//! The file tools: `read_file`, `write_file`, `replace_text_in_file` and
//! `rename_file`.
use vstd::prelude::*;
use crate::args::{ArgValueView, ToolArgs, arg_text_or, text_arg, text_or};
use crate::text::{join_text, contains, contains_text, owned, replace, replace_all};
use super::{
    ToolResult, ToolResultView, failure, failure_view, missing_arguments, success, success_view,
};

verus! {

/// The text of argument `key`, or the empty text.
pub open spec fn text_or_empty(args: Map<Seq<char>, ArgValueView>, key: Seq<char>) -> Seq<char> {
    text_or(text_arg(args, key), ""@)
}

fn text_or_empty_exec(args: &ToolArgs, key: &str) -> (r: String)
    ensures
        r@ == text_or_empty(args@, key@),
{
    arg_text_or(Some(args), key, "")
}

/// The answer when a file cannot be read.
pub open spec fn read_error_view(path: Seq<char>, e: Seq<char>) -> ToolResultView {
    failure_view("Erreur de lecture du fichier "@ + path + " : "@ + e)
}

fn read_error(path: &str, e: &str) -> (r: ToolResult)
    ensures
        r@ == read_error_view(path@, e@),
{
    let a = join_text("Erreur de lecture du fichier ", path);
    let b = join_text(a.as_str(), " : ");
    failure(join_text(b.as_str(), e))
}

/// The answer when a file cannot be written.
pub open spec fn write_error_view(e: Seq<char>) -> ToolResultView {
    failure_view("Erreur d'écriture : "@ + e)
}

fn write_error(e: &str) -> (r: ToolResult)
    ensures
        r@ == write_error_view(e@),
{
    failure(join_text("Erreur d'écriture : ", e))
}

// --------------------------------------------------------------- read_file

/// The file that `read_file` reads: the `path` argument, or the empty path.
pub fn read_file_plan(args: Option<&ToolArgs>) -> (r: Result<String, ToolResult>)
    ensures
        match (args, r) {
            (Some(a), Ok(path)) => path@ == text_or_empty(a@, "path"@),
            (None, Err(e)) => e@ == failure_view("Arguments manquants"@),
            _ => false,
        },
{
    match args {
        Some(a) => Ok(text_or_empty_exec(a, "path")),
        None => Err(missing_arguments()),
    }
}

/// The answer of `read_file`: the content of the file, or why it could not
/// be read.
pub fn read_file_result(path: &str, outcome: &Result<String, String>) -> (r: ToolResult)
    ensures
        match outcome {
            Ok(content) => r@ == success_view(content@),
            Err(e) => r@ == read_error_view(path@, e@),
        },
{
    match outcome {
        Ok(content) => success(content.clone()),
        Err(e) => read_error(path, e.as_str()),
    }
}

// -------------------------------------------------------------- write_file

/// A file to write whole: its path and its new content.
pub struct WritePlan {
    pub path: String,
    pub content: String,
}

/// What `write_file` writes: the `content` argument (or nothing) to the
/// `path` argument (or the empty path).
pub fn write_file_plan(args: Option<&ToolArgs>) -> (r: Result<WritePlan, ToolResult>)
    ensures
        match (args, r) {
            (Some(a), Ok(p)) => p.path@ == text_or_empty(a@, "path"@) && p.content@
                == text_or_empty(a@, "content"@),
            (None, Err(e)) => e@ == failure_view("Arguments manquants"@),
            _ => false,
        },
{
    match args {
        Some(a) => Ok(
            WritePlan {
                path: text_or_empty_exec(a, "path"),
                content: text_or_empty_exec(a, "content"),
            },
        ),
        None => Err(missing_arguments()),
    }
}

/// The answer of `write_file` once the file was written or not.
pub fn write_file_result(path: &str, outcome: &Result<(), String>) -> (r: ToolResult)
    ensures
        match outcome {
            Ok(_) => r@ == success_view("Fichier "@ + path@ + " modifié en entier."@),
            Err(e) => r@ == write_error_view(e@),
        },
{
    match outcome {
        Ok(_) => {
            let a = join_text("Fichier ", path);
            success(join_text(a.as_str(), " modifié en entier."))
        },
        Err(e) => write_error(e.as_str()),
    }
}

// ---------------------------------------------------- replace_text_in_file

/// A replacement to make in a file: every occurrence of `old_text` becomes
/// `new_text`.
pub struct ReplacePlan {
    pub path: String,
    pub old_text: String,
    pub new_text: String,
}

/// What `replace_text_in_file` replaces, in which file.
pub fn replace_text_plan(args: Option<&ToolArgs>) -> (r: Result<ReplacePlan, ToolResult>)
    ensures
        match (args, r) {
            (Some(a), Ok(p)) => {
                &&& p.path@ == text_or_empty(a@, "path"@)
                &&& p.old_text@ == text_or_empty(a@, "old_text"@)
                &&& p.new_text@ == text_or_empty(a@, "new_text"@)
            },
            (None, Err(e)) => e@ == failure_view("Arguments manquants"@),
            _ => false,
        },
{
    match args {
        Some(a) => Ok(
            ReplacePlan {
                path: text_or_empty_exec(a, "path"),
                old_text: text_or_empty_exec(a, "old_text"),
                new_text: text_or_empty_exec(a, "new_text"),
            },
        ),
        None => Err(missing_arguments()),
    }
}

/// What to do once the file has been read: write the new content back, or
/// stop with an answer.
pub enum ReplaceStep {
    Write(String),
    Done(ToolResult),
}

/// The answer when the text to replace does not occur in the file.
pub open spec fn not_found_view() -> ToolResultView {
    failure_view(
        "Le texte spécifié (old_text) n'a pas été trouvé dans le fichier, impossible de le remplacer."@,
    )
}

/// The step of `replace_text_in_file` after reading the file: when the text
/// to replace occurs in the content, write the content with every occurrence
/// replaced; otherwise answer that it was not found, or why the file could
/// not be read.
pub fn replace_text_after_read(plan: &ReplacePlan, read: &Result<String, String>) -> (r:
    ReplaceStep)
    ensures
        match read {
            Ok(content) => if contains_text(content@, plan.old_text@) {
                r matches ReplaceStep::Write(c) && c@ == replace_all(
                    content@,
                    plan.old_text@,
                    plan.new_text@,
                )
            } else {
                r matches ReplaceStep::Done(res) && res@ == not_found_view()
            },
            Err(e) => r matches ReplaceStep::Done(res) && res@ == read_error_view(
                plan.path@,
                e@,
            ),
        },
{
    match read {
        Ok(content) => {
            if contains(content.as_str(), plan.old_text.as_str()) {
                ReplaceStep::Write(
                    replace(content.as_str(), plan.old_text.as_str(), plan.new_text.as_str()),
                )
            } else {
                ReplaceStep::Done(
                    failure(
                        owned(
                            "Le texte spécifié (old_text) n'a pas été trouvé dans le fichier, impossible de le remplacer.",
                        ),
                    ),
                )
            }
        },
        Err(e) => ReplaceStep::Done(read_error(plan.path.as_str(), e.as_str())),
    }
}

/// The answer of `replace_text_in_file` once the new content was written or
/// not.
pub fn replace_text_after_write(plan: &ReplacePlan, outcome: &Result<(), String>) -> (r:
    ToolResult)
    ensures
        match outcome {
            Ok(_) => r@ == success_view(
                "Texte remplacé avec succès dans le fichier "@ + plan.path@ + "."@,
            ),
            Err(e) => r@ == write_error_view(e@),
        },
{
    match outcome {
        Ok(_) => {
            let a = join_text("Texte remplacé avec succès dans le fichier ", plan.path.as_str());
            success(join_text(a.as_str(), "."))
        },
        Err(e) => write_error(e.as_str()),
    }
}

// ------------------------------------------------------------- rename_file

/// A file to rename.
pub struct RenamePlan {
    pub old_path: String,
    pub new_path: String,
}

/// The answer when one of the two paths is missing or empty.
pub open spec fn rename_missing_view() -> ToolResultView {
    failure_view("Les arguments 'old_path' et 'new_path' sont obligatoires."@)
}

/// What `rename_file` renames: both paths must be given and not empty.
pub fn rename_file_plan(args: Option<&ToolArgs>) -> (r: Result<RenamePlan, ToolResult>)
    ensures
        match args {
            Some(a) => {
                let old_path = text_or_empty(a@, "old_path"@);
                let new_path = text_or_empty(a@, "new_path"@);
                if old_path.len() == 0 || new_path.len() == 0 {
                    r matches Err(e) && e@ == rename_missing_view()
                } else {
                    r matches Ok(p) && p.old_path@ == old_path && p.new_path@ == new_path
                }
            },
            None => r matches Err(e) && e@ == failure_view("Arguments manquants"@),
        },
{
    match args {
        Some(a) => {
            let old_path = text_or_empty_exec(a, "old_path");
            let new_path = text_or_empty_exec(a, "new_path");
            if old_path.as_str().is_empty() || new_path.as_str().is_empty() {
                Err(failure(owned("Les arguments 'old_path' et 'new_path' sont obligatoires.")))
            } else {
                Ok(RenamePlan { old_path, new_path })
            }
        },
        None => Err(missing_arguments()),
    }
}

/// The answer of `rename_file` once the file was renamed or not.
pub fn rename_file_result(plan: &RenamePlan, outcome: &Result<(), String>) -> (r: ToolResult)
    ensures
        match outcome {
            Ok(_) => r@ == success_view(
                "Fichier '"@ + plan.old_path@ + "' renommé en '"@ + plan.new_path@
                    + "' avec succès."@,
            ),
            Err(e) => r@ == failure_view("Erreur lors du renommage : "@ + e@),
        },
{
    match outcome {
        Ok(_) => {
            let a = join_text("Fichier '", plan.old_path.as_str());
            let b = join_text(a.as_str(), "' renommé en '");
            let c = join_text(b.as_str(), plan.new_path.as_str());
            success(join_text(c.as_str(), "' avec succès."))
        },
        Err(e) => failure(join_text("Erreur lors du renommage : ", e.as_str())),
    }
}

} // verus!
