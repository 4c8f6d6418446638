use mcp::args::{arg_text, arg_text_or, ArgValue, ToolArgs};

fn sample() -> ToolArgs {
    let mut a = ToolArgs::new();
    a.insert("path".to_string(), ArgValue::Text("notes.md".to_string()));
    a.insert("overwrite".to_string(), ArgValue::Flag(true));
    a.insert("count".to_string(), ArgValue::Other);
    a
}

#[test]
fn text_arguments_are_found() {
    let a = sample();
    assert_eq!(a.get_text("path"), Some("notes.md".to_string()));
    assert_eq!(arg_text(&a, "path"), Some("notes.md".to_string()));
}

#[test]
fn non_text_arguments_read_as_missing_text() {
    let a = sample();
    assert_eq!(a.get_text("overwrite"), None);
    assert_eq!(a.get_text("count"), None);
    assert_eq!(a.get_text("absent"), None);
}

#[test]
fn flag_arguments_are_found() {
    let a = sample();
    assert_eq!(a.get_flag("overwrite"), Some(true));
    assert_eq!(a.get_flag("path"), None);
    assert_eq!(a.get_flag("absent"), None);
}

#[test]
fn a_later_member_replaces_an_earlier_one() {
    let mut a = sample();
    a.insert("path".to_string(), ArgValue::Text("other.md".to_string()));
    assert_eq!(a.get_text("path"), Some("other.md".to_string()));
    a.insert("path".to_string(), ArgValue::Flag(false));
    assert_eq!(a.get_text("path"), None);
    assert_eq!(a.get_flag("path"), Some(false));
}

#[test]
fn defaults_apply_when_the_argument_is_missing() {
    let a = sample();
    assert_eq!(arg_text_or(Some(&a), "path", "x"), "notes.md");
    assert_eq!(arg_text_or(Some(&a), "files", "."), ".");
    assert_eq!(arg_text_or(None, "path", "x"), "x");
}
