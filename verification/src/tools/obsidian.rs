//! The Obsidian tools: `obsidian_create`, `obsidian_append`, `obsidian_read`
//! and `obsidian_search`, each a call of the `obsidian` command line with
//! `key=value` arguments.
use vstd::prelude::*;
use crate::args::{ArgValueView, ToolArgs, arg_text, flag_arg, text_arg};
use crate::text::{
    is_blank, is_blank_text, is_white_space, join_text, lemma_replace_keeps_out,
    lemma_replace_removes_char, owned, replace, replace_all, utf8_lossy,
};
use super::{
    CommandOutput, CommandPlan, CommandPlanView, ToolResult, ToolResultView, failure,
    failure_view, output_texts, success, success_view, texts,
};

verus! {

// ------------------------------------------------------------------ values

/// A content value as the command line takes it: each line break written
/// `\n` and each tab written `\t`.
pub open spec fn escaped(content: Seq<char>) -> Seq<char> {
    replace_all(replace_all(content, "\n"@, "\\n"@), "\t"@, "\\t"@)
}

/// `content.replace("\n", "\\n").replace("\t", "\\t")`.
pub fn escape_value(content: &str) -> (r: String)
    ensures
        r@ == escaped(content@),
{
    let a = replace(content, "\n", "\\n");
    replace(a.as_str(), "\t", "\\t")
}

/// An escaped value holds no line break and no tab, so it stays one
/// argument of one line.
pub proof fn lemma_escaped_is_one_line(content: Seq<char>)
    ensures
        !escaped(content).contains('\n'),
        !escaped(content).contains('\t'),
{
    reveal_strlit("\n");
    reveal_strlit("\\n");
    reveal_strlit("\t");
    reveal_strlit("\\t");
    assert("\n"@ =~= seq!['\n']);
    assert("\t"@ =~= seq!['\t']);
    let nl_esc = "\\n"@;
    let tab_esc = "\\t"@;
    assert(!nl_esc.contains('\n')) by {
        if nl_esc.contains('\n') {
            let i = choose|i: int| 0 <= i < nl_esc.len() && nl_esc[i] == '\n';
        }
    }
    assert(!tab_esc.contains('\n')) by {
        if tab_esc.contains('\n') {
            let i = choose|i: int| 0 <= i < tab_esc.len() && tab_esc[i] == '\n';
        }
    }
    assert(!tab_esc.contains('\t')) by {
        if tab_esc.contains('\t') {
            let i = choose|i: int| 0 <= i < tab_esc.len() && tab_esc[i] == '\t';
        }
    }
    let once = replace_all(content, "\n"@, nl_esc);
    lemma_replace_removes_char(content, '\n', nl_esc);
    lemma_replace_keeps_out(once, "\t"@, tab_esc, '\n');
    lemma_replace_removes_char(once, '\t', tab_esc);
}

/// `prefix` followed by the text of argument `key`, when there is one.
pub open spec fn keyed(args: Map<Seq<char>, ArgValueView>, key: Seq<char>, prefix: Seq<char>)
    -> Option<Seq<char>> {
    match text_arg(args, key) {
        Some(v) => Some(prefix + v),
        None => None,
    }
}

/// The optional piece `piece` as a list of zero or one argument.
pub open spec fn optional(piece: Option<Seq<char>>) -> Seq<Seq<char>> {
    match piece {
        Some(p) => seq![p],
        None => Seq::empty(),
    }
}

/// The note a call is about: `<first>=<value>` when that argument is given,
/// else `path=<value>`.
pub open spec fn note_target(args: Map<Seq<char>, ArgValueView>, first: Seq<char>, first_prefix: Seq<
    char,
>) -> Option<Seq<char>> {
    match keyed(args, first, first_prefix) {
        Some(t) => Some(t),
        None => keyed(args, "path"@, "path="@),
    }
}

/// The escaped content argument, when there is one.
pub open spec fn content_piece(args: Map<Seq<char>, ArgValueView>) -> Option<Seq<char>> {
    match text_arg(args, "content"@) {
        Some(c) => Some("content="@ + escaped(c)),
        None => None,
    }
}

/// The vault argument, when there is one.
pub open spec fn vault_piece(args: Map<Seq<char>, ArgValueView>) -> Option<Seq<char>> {
    keyed(args, "vault"@, "vault="@)
}

/// The answer when the arguments object is missing.
pub open spec fn required_missing_view() -> ToolResultView {
    failure_view("Arguments requis manquants"@)
}

fn required_missing() -> (r: ToolResult)
    ensures
        r@ == required_missing_view(),
{
    failure(owned("Arguments requis manquants"))
}

fn push_keyed(v: &mut Vec<String>, args: &ToolArgs, key: &str, prefix: &str) -> (found: bool)
    ensures
        texts(final(v)@) == texts(old(v)@) + optional(keyed(args@, key@, prefix@)),
        found == keyed(args@, key@, prefix@) is Some,
{
    match arg_text(args, key) {
        Some(t) => {
            let ghost before = v@;
            v.push(join_text(prefix, t.as_str()));
            assert(texts(v@) =~= texts(before) + seq![prefix@ + t@]);
            true
        },
        None => {
            assert(texts(old(v)@) + Seq::<Seq<char>>::empty() =~= texts(old(v)@));
            false
        },
    }
}

fn push_target(v: &mut Vec<String>, args: &ToolArgs, first: &str, first_prefix: &str) -> (found:
    bool)
    ensures
        found == note_target(args@, first@, first_prefix@) is Some,
        found ==> texts(final(v)@) == texts(old(v)@) + optional(
            note_target(args@, first@, first_prefix@),
        ),
{
    if push_keyed(v, args, first, first_prefix) {
        true
    } else {
        push_keyed(v, args, "path", "path=")
    }
}

fn push_content(v: &mut Vec<String>, args: &ToolArgs) -> (found: bool)
    ensures
        texts(final(v)@) == texts(old(v)@) + optional(content_piece(args@)),
        found == content_piece(args@) is Some,
{
    match arg_text(args, "content") {
        Some(c) => {
            let ghost before = v@;
            let e = escape_value(c.as_str());
            v.push(join_text("content=", e.as_str()));
            assert(texts(v@) =~= texts(before) + seq!["content="@ + escaped(c@)]);
            true
        },
        None => {
            assert(texts(old(v)@) + Seq::<Seq<char>>::empty() =~= texts(old(v)@));
            false
        },
    }
}

fn start_list(first: &str) -> (v: Vec<String>)
    ensures
        texts(v@) == seq![first@],
{
    let mut v: Vec<String> = Vec::new();
    v.push(owned(first));
    assert(texts(v@) =~= seq![first@]);
    v
}

// ----------------------------------------------------------------- create

/// The `overwrite` argument when it is `true`.
pub open spec fn overwrite_piece(args: Map<Seq<char>, ArgValueView>) -> Option<Seq<char>> {
    if flag_arg(args, "overwrite"@) == Some(true) {
        Some("overwrite"@)
    } else {
        None
    }
}

/// The command-line arguments of `obsidian_create`: `create`, the note
/// (`name=` or `path=`, one of which is required), then the escaped content,
/// the vault and `overwrite`, each when given.
pub open spec fn create_args_view(args: Option<Map<Seq<char>, ArgValueView>>) -> Result<
    Seq<Seq<char>>,
    ToolResultView,
> {
    match args {
        None => Err(required_missing_view()),
        Some(a) => match note_target(a, "name"@, "name="@) {
            None => Err(failure_view("Le paramètre 'name' ou 'path' est obligatoire."@)),
            Some(t) => Ok(
                seq!["create"@, t] + optional(content_piece(a)) + optional(vault_piece(a))
                    + optional(overwrite_piece(a)),
            ),
        },
    }
}

/// The command-line arguments of `obsidian_create`.
pub fn obsidian_create_args(args: Option<&ToolArgs>) -> (r: Result<Vec<String>, ToolResult>)
    ensures
        match r {
            Ok(v) => create_args_view(crate::args::opt_args_view(args)) == Ok::<
                Seq<Seq<char>>,
                ToolResultView,
            >(texts(v@)),
            Err(e) => create_args_view(crate::args::opt_args_view(args)) == Err::<
                Seq<Seq<char>>,
                ToolResultView,
            >(e@),
        },
{
    match args {
        Some(a) => {
            let mut v = start_list("create");
            if !push_target(&mut v, a, "name", "name=") {
                return Err(failure(owned("Le paramètre 'name' ou 'path' est obligatoire.")));
            }
            push_content(&mut v, a);
            push_keyed(&mut v, a, "vault", "vault=");
            let ghost before = v@;
            match a.get_flag("overwrite") {
                Some(true) => {
                    v.push(owned("overwrite"));
                    assert(texts(v@) =~= texts(before) + seq!["overwrite"@]);
                },
                _ => {
                    assert(texts(v@) =~= texts(before) + Seq::<Seq<char>>::empty());
                },
            }
            proof {
                let t = note_target(a@, "name"@, "name="@).unwrap();
                assert(seq!["create"@] + seq![t] =~= seq!["create"@, t]);
            }
            Ok(v)
        },
        None => Err(required_missing()),
    }
}

// ----------------------------------------------------------------- append

/// The command-line arguments of `obsidian_append`: `append`, the note
/// (`file=` or `path=`, one of which is required), the escaped content
/// (required), then the vault when given.
pub open spec fn append_args_view(args: Option<Map<Seq<char>, ArgValueView>>) -> Result<
    Seq<Seq<char>>,
    ToolResultView,
> {
    match args {
        None => Err(required_missing_view()),
        Some(a) => match note_target(a, "file"@, "file="@) {
            None => Err(failure_view("Le paramètre 'file' ou 'path' est obligatoire."@)),
            Some(t) => match content_piece(a) {
                None => Err(failure_view("Le paramètre 'content' est obligatoire."@)),
                Some(c) => Ok(seq!["append"@, t, c] + optional(vault_piece(a))),
            },
        },
    }
}

/// The command-line arguments of `obsidian_append`.
pub fn obsidian_append_args(args: Option<&ToolArgs>) -> (r: Result<Vec<String>, ToolResult>)
    ensures
        match r {
            Ok(v) => append_args_view(crate::args::opt_args_view(args)) == Ok::<
                Seq<Seq<char>>,
                ToolResultView,
            >(texts(v@)),
            Err(e) => append_args_view(crate::args::opt_args_view(args)) == Err::<
                Seq<Seq<char>>,
                ToolResultView,
            >(e@),
        },
{
    match args {
        Some(a) => {
            let mut v = start_list("append");
            if !push_target(&mut v, a, "file", "file=") {
                return Err(failure(owned("Le paramètre 'file' ou 'path' est obligatoire.")));
            }
            if !push_content(&mut v, a) {
                return Err(failure(owned("Le paramètre 'content' est obligatoire.")));
            }
            push_keyed(&mut v, a, "vault", "vault=");
            proof {
                let t = note_target(a@, "file"@, "file="@).unwrap();
                let c = content_piece(a@).unwrap();
                assert(seq!["append"@] + seq![t] + seq![c] =~= seq!["append"@, t, c]);
            }
            Ok(v)
        },
        None => Err(required_missing()),
    }
}

// ------------------------------------------------------------------- read

/// The command-line arguments of `obsidian_read`: `read`, the note
/// (`file=` or `path=`, one of which is required), then the vault when given.
pub open spec fn read_args_view(args: Option<Map<Seq<char>, ArgValueView>>) -> Result<
    Seq<Seq<char>>,
    ToolResultView,
> {
    match args {
        None => Err(required_missing_view()),
        Some(a) => match note_target(a, "file"@, "file="@) {
            None => Err(failure_view("Le paramètre 'file' ou 'path' est obligatoire."@)),
            Some(t) => Ok(seq!["read"@, t] + optional(vault_piece(a))),
        },
    }
}

/// The command-line arguments of `obsidian_read`.
pub fn obsidian_read_args(args: Option<&ToolArgs>) -> (r: Result<Vec<String>, ToolResult>)
    ensures
        match r {
            Ok(v) => read_args_view(crate::args::opt_args_view(args)) == Ok::<
                Seq<Seq<char>>,
                ToolResultView,
            >(texts(v@)),
            Err(e) => read_args_view(crate::args::opt_args_view(args)) == Err::<
                Seq<Seq<char>>,
                ToolResultView,
            >(e@),
        },
{
    match args {
        Some(a) => {
            let mut v = start_list("read");
            if !push_target(&mut v, a, "file", "file=") {
                return Err(failure(owned("Le paramètre 'file' ou 'path' est obligatoire.")));
            }
            push_keyed(&mut v, a, "vault", "vault=");
            proof {
                let t = note_target(a@, "file"@, "file="@).unwrap();
                assert(seq!["read"@] + seq![t] =~= seq!["read"@, t]);
            }
            Ok(v)
        },
        None => Err(required_missing()),
    }
}

// ----------------------------------------------------------------- search

/// The command-line arguments of `obsidian_search`: `search`, the query
/// (required), then the vault and the output format, each when given.
pub open spec fn search_args_view(args: Option<Map<Seq<char>, ArgValueView>>) -> Result<
    Seq<Seq<char>>,
    ToolResultView,
> {
    match args {
        None => Err(required_missing_view()),
        Some(a) => match keyed(a, "query"@, "query="@) {
            None => Err(failure_view("Le paramètre 'query' est obligatoire."@)),
            Some(q) => Ok(
                seq!["search"@, q] + optional(vault_piece(a)) + optional(
                    keyed(a, "format"@, "format="@),
                ),
            ),
        },
    }
}

/// The command-line arguments of `obsidian_search`.
pub fn obsidian_search_args(args: Option<&ToolArgs>) -> (r: Result<Vec<String>, ToolResult>)
    ensures
        match r {
            Ok(v) => search_args_view(crate::args::opt_args_view(args)) == Ok::<
                Seq<Seq<char>>,
                ToolResultView,
            >(texts(v@)),
            Err(e) => search_args_view(crate::args::opt_args_view(args)) == Err::<
                Seq<Seq<char>>,
                ToolResultView,
            >(e@),
        },
{
    match args {
        Some(a) => {
            let mut v = start_list("search");
            if !push_keyed(&mut v, a, "query", "query=") {
                return Err(failure(owned("Le paramètre 'query' est obligatoire.")));
            }
            push_keyed(&mut v, a, "vault", "vault=");
            push_keyed(&mut v, a, "format", "format=");
            proof {
                let q = keyed(a@, "query"@, "query="@).unwrap();
                assert(seq!["search"@] + seq![q] =~= seq!["search"@, q]);
            }
            Ok(v)
        },
        None => Err(required_missing()),
    }
}

// ------------------------------------------------------------ the command

/// The `obsidian` command with the given arguments.
pub fn obsidian_plan(args: Vec<String>) -> (p: CommandPlan)
    ensures
        p@ == (CommandPlanView { program: "obsidian"@, args: texts(args@), cwd: None }),
{
    CommandPlan { program: owned("obsidian"), args, cwd: None }
}

/// The answer of an `obsidian` call that ran: an error with its exit status
/// and error stream when it failed; otherwise its output, followed by its
/// error stream under its own header when that is not empty, or a message of
/// success when all that is blank.
pub open spec fn obsidian_report_view(
    succeeded: bool,
    status: Seq<char>,
    stdout: Seq<char>,
    stderr: Seq<char>,
) -> ToolResultView {
    if !succeeded {
        failure_view("Erreur ("@ + status + "): "@ + stderr)
    } else {
        let r = if stderr.len() != 0 {
            stdout + "\n\nStderr:\n"@ + stderr
        } else {
            stdout
        };
        if is_blank_text(r) {
            success_view("Commande exécutée avec succès."@)
        } else {
            success_view(r)
        }
    }
}

/// The answer of an `obsidian` call from its status and decoded streams.
pub fn obsidian_report(succeeded: bool, status: &str, stdout: &str, stderr: &str) -> (r:
    ToolResult)
    ensures
        r@ == obsidian_report_view(succeeded, status@, stdout@, stderr@),
{
    if !succeeded {
        let a = join_text("Erreur (", status);
        let b = join_text(a.as_str(), "): ");
        return failure(join_text(b.as_str(), stderr));
    }
    let out = if !stderr.is_empty() {
        let a = join_text(stdout, "\n\nStderr:\n");
        join_text(a.as_str(), stderr)
    } else {
        owned(stdout)
    };
    if is_blank(out.as_str()) {
        success(owned("Commande exécutée avec succès."))
    } else {
        success(out)
    }
}

/// The answer of an `obsidian` call from the outcome of launching it
/// (`run_obsidian_cmd`).
pub fn obsidian_result(outcome: &Result<CommandOutput, String>) -> (r: ToolResult)
    ensures
        match outcome {
            Ok(out) => r@ == obsidian_report_view(
                out.success,
                out.status@,
                utf8_lossy(out.stdout@),
                utf8_lossy(out.stderr@),
            ),
            Err(e) => r@ == failure_view("Erreur d'exécution de 'obsidian': "@ + e@),
        },
{
    match outcome {
        Ok(out) => {
            let (stdout, stderr) = output_texts(out);
            obsidian_report(out.success, out.status.as_str(), stdout.as_str(), stderr.as_str())
        },
        Err(e) => failure(join_text("Erreur d'exécution de 'obsidian': ", e.as_str())),
    }
}

/// An `obsidian` call that succeeded never answers with a blank text, and
/// one that failed is always answered as an error.
pub proof fn lemma_obsidian_answer(
    succeeded: bool,
    status: Seq<char>,
    stdout: Seq<char>,
    stderr: Seq<char>,
)
    ensures
        obsidian_report_view(succeeded, status, stdout, stderr).is_error == !succeeded,
        succeeded ==> !is_blank_text(obsidian_report_view(succeeded, status, stdout, stderr).text),
{
    reveal_strlit("Commande exécutée avec succès.");
    let m = "Commande exécutée avec succès."@;
    assert(m[0] == 'C');
    assert(!is_white_space(m[0]));
}

/// A vault given as text reaches the command line of every Obsidian tool
/// whose call goes through: as `vault=<vault>` after the note (and the
/// content) for `obsidian_read` and `obsidian_append`, and among the
/// arguments for `obsidian_create` and `obsidian_search`. A read or search
/// goes through as soon as its note or query is given.
pub proof fn lemma_vault_reaches_the_command_line(a: Map<Seq<char>, ArgValueView>, v: Seq<char>)
    requires
        text_arg(a, "vault"@) == Some(v),
    ensures
        (text_arg(a, "file"@) is Some || text_arg(a, "path"@) is Some) ==> (read_args_view(Some(a))
            matches Ok(s) && s.len() == 3 && s[0] == "read"@ && s[2] == "vault="@ + v),
        text_arg(a, "query"@) is Some ==> (search_args_view(Some(a)) matches Ok(s) && s.len() >= 3
            && s[0] == "search"@ && s[2] == "vault="@ + v),
        append_args_view(Some(a)) matches Ok(s) ==> s.len() == 4 && s[3] == "vault="@ + v,
        create_args_view(Some(a)) matches Ok(s) ==> s.contains("vault="@ + v),
{
    if text_arg(a, "query"@) is Some {
        let q = keyed(a, "query"@, "query="@).unwrap();
        let s = seq!["search"@, q] + optional(vault_piece(a)) + optional(
            keyed(a, "format"@, "format="@),
        );
        assert(s[2] == "vault="@ + v);
    }
    if create_args_view(Some(a)) is Ok {
        let t = note_target(a, "name"@, "name="@).unwrap();
        let s = seq!["create"@, t] + optional(content_piece(a)) + optional(vault_piece(a))
            + optional(overwrite_piece(a));
        let i: int = 2 + optional(content_piece(a)).len() as int;
        assert(s[i] == "vault="@ + v);
    }
}

} // verus!
