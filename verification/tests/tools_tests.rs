use mcp::args::{ArgValue, ToolArgs};
use mcp::tools::cmd::{run_command_plan, run_command_report, run_command_result};
use mcp::tools::file::{
    read_file_plan, read_file_result, rename_file_plan, rename_file_result,
    replace_text_after_read, replace_text_after_write, replace_text_plan, write_file_plan,
    write_file_result, ReplacePlan, ReplaceStep,
};
use mcp::tools::git::{
    git_add_plan, git_add_report, git_add_result, git_commit_plan, git_commit_report,
    git_commit_result, git_status_plan, git_status_report, git_status_result,
};
use mcp::tools::obsidian::{
    escape_value, obsidian_append_args, obsidian_create_args, obsidian_plan, obsidian_read_args,
    obsidian_report, obsidian_result, obsidian_search_args,
};
use mcp::tools::{CommandOutput, ToolResult};

const REPO: &str = "C:\\Users\\ferta\\Documents\\GitHub\\MCP-server";

fn args(pairs: &[(&str, ArgValue)]) -> ToolArgs {
    let mut a = ToolArgs::new();
    for (k, v) in pairs.iter() {
        let v = match v {
            ArgValue::Text(s) => ArgValue::Text(s.clone()),
            ArgValue::Flag(b) => ArgValue::Flag(*b),
            ArgValue::Other => ArgValue::Other,
        };
        a.insert(k.to_string(), v);
    }
    a
}

fn text(s: &str) -> ArgValue {
    ArgValue::Text(s.to_string())
}

fn ok(r: &ToolResult, t: &str) {
    assert!(!r.is_error, "expected success, got error {:?}", r.text);
    assert_eq!(r.text, t);
}

fn err(r: &ToolResult, t: &str) {
    assert!(r.is_error, "expected error, got success {:?}", r.text);
    assert_eq!(r.text, t);
}

fn output(stdout: &[u8], stderr: &[u8], success: bool, status: &str) -> CommandOutput {
    CommandOutput {
        stdout: stdout.to_vec(),
        stderr: stderr.to_vec(),
        success,
        status: status.to_string(),
    }
}

fn strings(v: &[&str]) -> Vec<String> {
    v.iter().map(|s| s.to_string()).collect()
}

// ---------------------------------------------------------------- run_command

#[test]
fn run_command_without_arguments_is_an_error() {
    match run_command_plan(None) {
        Err(r) => err(&r, "Arguments manquants"),
        Ok(_) => panic!("a plan without arguments"),
    }
}

#[test]
fn run_command_runs_powershell_in_the_directory() {
    let a = args(&[("command", text("ls")), ("cwd", text("D:\\work"))]);
    let p = run_command_plan(Some(&a)).ok().unwrap();
    assert_eq!(p.program, "powershell");
    assert_eq!(p.args, strings(&["-Command", "ls"]));
    assert_eq!(p.cwd, Some("D:\\work".to_string()));
}

#[test]
fn run_command_defaults() {
    let a = args(&[]);
    let p = run_command_plan(Some(&a)).ok().unwrap();
    assert_eq!(p.args, strings(&["-Command", ""]));
    assert_eq!(p.cwd, Some(REPO.to_string()));
}

#[test]
fn run_command_report_without_errors() {
    let r = run_command_report("D:\\w", "dir", "a.txt\n", "");
    ok(&r, "Dossier: D:\\w\nCommande: dir\n----\na.txt\n");
}

#[test]
fn run_command_report_with_errors() {
    let r = run_command_report("D:\\w", "dir", "out", "bad");
    ok(&r, "Dossier: D:\\w\nCommande: dir\nout\nErreur/Warn:\nbad");
}

#[test]
fn run_command_result_decodes_output() {
    let a = args(&[("command", text("echo")), ("cwd", text("C:"))]);
    let r = run_command_result(&a, &Ok(output(&[0x68, 0xff], b"", true, "exit code: 0")));
    ok(&r, "Dossier: C:\nCommande: echo\n----\nh\u{fffd}");
}

#[test]
fn run_command_launch_failure() {
    let a = args(&[]);
    let r = run_command_result(&a, &Err("introuvable".to_string()));
    err(&r, "Erreur d'exécution: introuvable");
}

// ------------------------------------------------------------------------ git

#[test]
fn git_add_plan_with_defaults() {
    let p = git_add_plan(None);
    assert_eq!(p.program, "git");
    assert_eq!(p.args, strings(&["add", "."]));
    assert_eq!(p.cwd, Some(REPO.to_string()));
}

#[test]
fn git_add_plan_with_arguments() {
    let a = args(&[("path", text("/repo")), ("files", text("src/main.rs"))]);
    let p = git_add_plan(Some(&a));
    assert_eq!(p.args, strings(&["add", "src/main.rs"]));
    assert_eq!(p.cwd, Some("/repo".to_string()));
}

#[test]
fn git_add_blank_output_names_the_files() {
    ok(&git_add_report("a.txt", "", ""), "Fichier(s) a.txt ajouté(s).");
    ok(&git_add_report("a.txt", " \n", ""), "Fichier(s) a.txt ajouté(s).");
}

#[test]
fn git_add_output_with_warnings() {
    ok(&git_add_report(".", "", "warning: LF"), "\nErreur/Warn:\nwarning: LF");
    ok(&git_add_report(".", "done", ""), "done");
}

#[test]
fn git_add_result_from_outcome() {
    ok(&git_add_result(None, &Ok(output(b"", b"", true, "0"))), "Fichier(s) . ajouté(s).");
    err(&git_add_result(None, &Err("no git".to_string())), "Erreur git add : no git");
}

#[test]
fn git_commit_plan_and_result() {
    let p = git_commit_plan(None);
    assert_eq!(p.args, strings(&["commit", "-m", "Update"]));
    let a = args(&[("message", text("fix"))]);
    assert_eq!(git_commit_plan(Some(&a)).args, strings(&["commit", "-m", "fix"]));
    ok(&git_commit_report("", ""), "");
    ok(&git_commit_report("1 file", "hint"), "1 file\nErreur/Warn:\nhint");
    ok(&git_commit_result(&Ok(output(b"x", b"", true, "0"))), "x");
    err(&git_commit_result(&Err("e".to_string())), "Erreur git commit : e");
}

#[test]
fn git_status_plan_and_report() {
    let p = git_status_plan(None);
    assert_eq!(p.args, strings(&["status"]));
    assert_eq!(p.cwd, Some(REPO.to_string()));
    ok(
        &git_status_report("/r", "clean", ""),
        "Dossier courant d'exécution: /r\n----\nclean",
    );
    ok(
        &git_status_report("/r", "", "fatal"),
        "Dossier courant d'exécution: /r\n\nErreur Git:\nfatal",
    );
    let a = args(&[("path", text("/r"))]);
    ok(
        &git_status_result(Some(&a), &output(b"ok", b"", true, "0")),
        "Dossier courant d'exécution: /r\n----\nok",
    );
}

// ---------------------------------------------------------------------- files

#[test]
fn read_file_plan_and_result() {
    match read_file_plan(None) {
        Err(r) => err(&r, "Arguments manquants"),
        Ok(_) => panic!(),
    }
    let a = args(&[("path", text("a.txt"))]);
    assert_eq!(read_file_plan(Some(&a)).ok().unwrap(), "a.txt");
    assert_eq!(read_file_plan(Some(&args(&[]))).ok().unwrap(), "");
    ok(&read_file_result("a.txt", &Ok("contenu".to_string())), "contenu");
    err(
        &read_file_result("a.txt", &Err("absent".to_string())),
        "Erreur de lecture du fichier a.txt : absent",
    );
}

#[test]
fn write_file_plan_and_result() {
    assert!(write_file_plan(None).is_err());
    let a = args(&[("path", text("b.txt")), ("content", text("xyz"))]);
    let p = write_file_plan(Some(&a)).ok().unwrap();
    assert_eq!(p.path, "b.txt");
    assert_eq!(p.content, "xyz");
    let q = write_file_plan(Some(&args(&[("path", text("b.txt"))]))).ok().unwrap();
    assert_eq!(q.content, "");
    ok(&write_file_result("b.txt", &Ok(())), "Fichier b.txt modifié en entier.");
    err(&write_file_result("b.txt", &Err("denied".to_string())), "Erreur d'écriture : denied");
}

fn replace_plan(old_text: &str, new_text: &str) -> ReplacePlan {
    ReplacePlan {
        path: "c.rs".to_string(),
        old_text: old_text.to_string(),
        new_text: new_text.to_string(),
    }
}

#[test]
fn replace_text_plan_reads_arguments() {
    assert!(replace_text_plan(None).is_err());
    let a = args(&[("path", text("c.rs")), ("old_text", text("a")), ("new_text", text("b"))]);
    let p = replace_text_plan(Some(&a)).ok().unwrap();
    assert_eq!((p.path.as_str(), p.old_text.as_str(), p.new_text.as_str()), ("c.rs", "a", "b"));
}

#[test]
fn replace_text_writes_every_occurrence_replaced() {
    match replace_text_after_read(&replace_plan("foo", "bar"), &Ok("foo foo".to_string())) {
        ReplaceStep::Write(c) => assert_eq!(c, "bar bar"),
        ReplaceStep::Done(_) => panic!(),
    }
    match replace_text_after_read(&replace_plan("foo", ""), &Ok("a foo b".to_string())) {
        ReplaceStep::Write(c) => assert_eq!(c, "a  b"),
        ReplaceStep::Done(_) => panic!(),
    }
}

#[test]
fn replace_text_not_found() {
    match replace_text_after_read(&replace_plan("zzz", "bar"), &Ok("foo".to_string())) {
        ReplaceStep::Done(r) => err(
            &r,
            "Le texte spécifié (old_text) n'a pas été trouvé dans le fichier, impossible de le remplacer.",
        ),
        ReplaceStep::Write(_) => panic!(),
    }
}

#[test]
fn replace_text_read_and_write_errors() {
    match replace_text_after_read(&replace_plan("a", "b"), &Err("gone".to_string())) {
        ReplaceStep::Done(r) => err(&r, "Erreur de lecture du fichier c.rs : gone"),
        ReplaceStep::Write(_) => panic!(),
    }
    err(&replace_text_after_write(&replace_plan("a", "b"), &Err("ro".to_string())), "Erreur d'écriture : ro");
    ok(
        &replace_text_after_write(&replace_plan("a", "b"), &Ok(())),
        "Texte remplacé avec succès dans le fichier c.rs.",
    );
}

#[test]
fn rename_needs_both_paths() {
    match rename_file_plan(None) {
        Err(r) => err(&r, "Arguments manquants"),
        Ok(_) => panic!(),
    }
    let only_old = args(&[("old_path", text("a"))]);
    match rename_file_plan(Some(&only_old)) {
        Err(r) => err(&r, "Les arguments 'old_path' et 'new_path' sont obligatoires."),
        Ok(_) => panic!(),
    }
    let empty_new = args(&[("old_path", text("a")), ("new_path", text(""))]);
    assert!(rename_file_plan(Some(&empty_new)).is_err());
    let both = args(&[("old_path", text("a")), ("new_path", text("b"))]);
    let p = rename_file_plan(Some(&both)).ok().unwrap();
    assert_eq!((p.old_path.as_str(), p.new_path.as_str()), ("a", "b"));
    ok(&rename_file_result(&p, &Ok(())), "Fichier 'a' renommé en 'b' avec succès.");
    err(&rename_file_result(&p, &Err("busy".to_string())), "Erreur lors du renommage : busy");
}

// ------------------------------------------------------------------- obsidian

#[test]
fn escaping_writes_line_breaks_and_tabs_out() {
    assert_eq!(escape_value("a\nb\tc"), "a\\nb\\tc");
    assert_eq!(escape_value("plain"), "plain");
    assert!(!escape_value("x\n\n\ty").contains('\n'));
}

#[test]
fn obsidian_create_arguments() {
    let a = args(&[
        ("name", text("Note")),
        ("path", text("ignored.md")),
        ("content", text("l1\nl2")),
        ("vault", text("V")),
        ("overwrite", ArgValue::Flag(true)),
    ]);
    assert_eq!(
        obsidian_create_args(Some(&a)).ok().unwrap(),
        strings(&["create", "name=Note", "content=l1\\nl2", "vault=V", "overwrite"])
    );
    let b = args(&[("path", text("D/N.md")), ("overwrite", ArgValue::Flag(false))]);
    assert_eq!(obsidian_create_args(Some(&b)).ok().unwrap(), strings(&["create", "path=D/N.md"]));
    let c = args(&[("name", ArgValue::Other), ("path", text("p.md"))]);
    assert_eq!(obsidian_create_args(Some(&c)).ok().unwrap(), strings(&["create", "path=p.md"]));
}

#[test]
fn obsidian_create_errors() {
    err(&obsidian_create_args(None).err().unwrap(), "Arguments requis manquants");
    err(
        &obsidian_create_args(Some(&args(&[("content", text("x"))]))).err().unwrap(),
        "Le paramètre 'name' ou 'path' est obligatoire.",
    );
}

#[test]
fn obsidian_append_arguments_and_errors() {
    let a = args(&[("file", text("F")), ("content", text("t\tx")), ("vault", text("V"))]);
    assert_eq!(
        obsidian_append_args(Some(&a)).ok().unwrap(),
        strings(&["append", "file=F", "content=t\\tx", "vault=V"])
    );
    err(&obsidian_append_args(None).err().unwrap(), "Arguments requis manquants");
    err(
        &obsidian_append_args(Some(&args(&[("content", text("x"))]))).err().unwrap(),
        "Le paramètre 'file' ou 'path' est obligatoire.",
    );
    err(
        &obsidian_append_args(Some(&args(&[("path", text("p"))]))).err().unwrap(),
        "Le paramètre 'content' est obligatoire.",
    );
}

#[test]
fn obsidian_read_arguments_and_errors() {
    let a = args(&[("path", text("p.md"))]);
    assert_eq!(obsidian_read_args(Some(&a)).ok().unwrap(), strings(&["read", "path=p.md"]));
    err(&obsidian_read_args(None).err().unwrap(), "Arguments requis manquants");
    err(
        &obsidian_read_args(Some(&args(&[]))).err().unwrap(),
        "Le paramètre 'file' ou 'path' est obligatoire.",
    );
}

#[test]
fn obsidian_search_arguments_and_errors() {
    let a = args(&[("query", text("todo")), ("vault", text("V")), ("format", text("json"))]);
    assert_eq!(
        obsidian_search_args(Some(&a)).ok().unwrap(),
        strings(&["search", "query=todo", "vault=V", "format=json"])
    );
    err(&obsidian_search_args(None).err().unwrap(), "Arguments requis manquants");
    err(
        &obsidian_search_args(Some(&args(&[("vault", text("V"))]))).err().unwrap(),
        "Le paramètre 'query' est obligatoire.",
    );
}

#[test]
fn obsidian_plan_runs_the_command_line() {
    let p = obsidian_plan(strings(&["read", "file=F"]));
    assert_eq!(p.program, "obsidian");
    assert_eq!(p.args, strings(&["read", "file=F"]));
    assert_eq!(p.cwd, None);
}

#[test]
fn obsidian_reports() {
    err(&obsidian_report(false, "exit status: 2", "out", "bad"), "Erreur (exit status: 2): bad");
    ok(&obsidian_report(true, "", "out", ""), "out");
    ok(&obsidian_report(true, "", "out", "warn"), "out\n\nStderr:\nwarn");
    ok(&obsidian_report(true, "", " ", ""), "Commande exécutée avec succès.");
    ok(&obsidian_result(&Ok(output(b"", b"", true, "0"))), "Commande exécutée avec succès.");
    err(
        &obsidian_result(&Err("not found".to_string())),
        "Erreur d'exécution de 'obsidian': not found",
    );
    err(&obsidian_result(&Ok(output(b"", &[0xfe], false, "1"))), "Erreur (1): \u{fffd}");
}
