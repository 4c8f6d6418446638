use mcp::catalog::{describe, server_info, tool_catalog, PropertyKind};
use mcp::protocol::{
    confirmation_title, requires_confirmation, route_request, tool_call_confirmed, tool_call_start, tool_for_name,
    CallStep, Reply, Tool,
};

const ALL: [Tool; 12] = [
    Tool::GitStatus,
    Tool::GitAdd,
    Tool::GitCommit,
    Tool::WriteFile,
    Tool::ReadFile,
    Tool::RenameFile,
    Tool::ReplaceTextInFile,
    Tool::RunCommand,
    Tool::ObsidianCreate,
    Tool::ObsidianAppend,
    Tool::ObsidianRead,
    Tool::ObsidianSearch,
];

#[test]
fn every_listed_tool_is_callable_by_its_name() {
    let catalog = tool_catalog();
    assert_eq!(catalog.len(), 12);
    for (d, t) in catalog.iter().zip(ALL.iter()) {
        assert_eq!(tool_for_name(&d.name), Some(*t));
    }
}

#[test]
fn catalog_order_and_names() {
    let names: Vec<String> = tool_catalog().into_iter().map(|d| d.name).collect();
    assert_eq!(
        names,
        vec![
            "git_status", "git_add", "git_commit", "write_file", "read_file", "rename_file",
            "replace_text_in_file", "run_command", "obsidian_create", "obsidian_append",
            "obsidian_read", "obsidian_search",
        ]
    );
}

#[test]
fn catalog_schemas() {
    let status = describe(Tool::GitStatus);
    assert!(status.required.is_none());
    assert!(status.properties.is_empty());
    let add = describe(Tool::GitAdd);
    assert_eq!(add.required, Some(vec!["files".to_string()]));
    assert_eq!(add.properties.len(), 2);
    assert_eq!(add.properties[1].description, "Fichiers à ajouter (ex: '.', 'src/main.rs')");
    let create = describe(Tool::ObsidianCreate);
    assert!(matches!(create.properties[4].kind, PropertyKind::Boolean));
    let search = describe(Tool::ObsidianSearch);
    match &search.properties[2].kind {
        PropertyKind::OneOf(v) => assert_eq!(v, &vec!["text".to_string(), "json".to_string()]),
        _ => panic!("format is a choice"),
    }
}

#[test]
fn server_identity() {
    let info = server_info();
    assert_eq!(info.protocol_version, "2024-11-05");
    assert_eq!(info.name, "local-rust-mcp");
    assert_eq!(info.version, "0.1.0");
    assert_eq!(info.capabilities, vec!["tools".to_string(), "resources".to_string()]);
}

#[test]
fn unknown_names_are_not_tools() {
    assert_eq!(tool_for_name("git_push"), None);
    assert_eq!(tool_for_name(""), None);
    assert_eq!(tool_for_name("Git_Add"), None);
}

#[test]
fn a_call_asks_first_when_confirmation_is_required() {
    match tool_call_start(Some("read_file"), Some("{\n  \"path\": \"a\"\n}"), true) {
        CallStep::Confirm(t) => assert_eq!(
            t,
            "L'IA souhaite exécuter l'outil : 'read_file'\n\nArguments :\n{\n  \"path\": \"a\"\n}"
        ),
        _ => panic!("expected a question"),
    }
    match tool_call_start(None, None, true) {
        CallStep::Confirm(t) => {
            assert_eq!(t, "L'IA souhaite exécuter l'outil : ''\n\nArguments :\nAucun argument")
        }
        _ => panic!("expected a question"),
    }
}

#[test]
fn confirmation_dialog_title() {
    assert_eq!(confirmation_title(), "Exécution d'une commande système");
}

#[test]
fn a_call_runs_at_once_without_confirmation() {
    assert!(matches!(tool_call_start(Some("git_add"), None, false), CallStep::Run(Tool::GitAdd)));
    match tool_call_start(Some("nope"), None, false) {
        CallStep::Finish(r) => {
            assert!(r.is_error);
            assert_eq!(r.text, "Outil inconnu");
        }
        _ => panic!("expected an answer"),
    }
}

#[test]
fn a_declined_call_never_runs() {
    match tool_call_confirmed(Some("run_command"), false) {
        CallStep::Finish(r) => {
            assert!(r.is_error);
            assert_eq!(r.text, "Action annulée par l'utilisateur.");
        }
        _ => panic!("expected the cancellation"),
    }
    assert!(matches!(
        tool_call_confirmed(Some("run_command"), true),
        CallStep::Run(Tool::RunCommand)
    ));
}

#[test]
fn auto_approve_turns_confirmation_off() {
    let with = vec!["mcp".to_string(), "--auto-approve".to_string()];
    let without = vec!["mcp".to_string(), "--auto".to_string()];
    assert!(!requires_confirmation(&with));
    assert!(requires_confirmation(&without));
    assert!(requires_confirmation(&vec![]));
}

#[test]
fn requests_are_routed_by_method() {
    assert_eq!(route_request("initialize", true, false), Reply::Initialize);
    assert_eq!(route_request("tools/list", true, false), Reply::ToolList);
    assert_eq!(route_request("tools/call", true, true), Reply::ToolCall);
    assert_eq!(route_request("tools/call", true, false), Reply::Nothing);
    assert_eq!(route_request("resources/list", true, false), Reply::Nothing);
    assert_eq!(route_request("notifications/initialized", false, false), Reply::Nothing);
}

#[test]
fn notifications_get_no_reply() {
    assert_eq!(route_request("initialize", false, true), Reply::Nothing);
    assert_eq!(route_request("tools/call", false, true), Reply::Nothing);
}
