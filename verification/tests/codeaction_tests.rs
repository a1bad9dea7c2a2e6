use kak_lsp::codeaction::{code_action_menu, editor_code_actions, execute_command_string};
use kak_lsp::quoting::editor_quote;
use kak_lsp::types::{ActionOrCommand, BridgeError, CodeAction, Command};

fn cmd(title: &str, identifier: &str, args: Option<Vec<serde_json::Value>>) -> Command {
    Command {
        title: title.to_string(),
        command: identifier.to_string(),
        arguments: args,
    }
}

/// Removes one layer of editor quoting: strips the outer single quotes and
/// halves every doubled quote.
fn editor_unquote(s: &str) -> String {
    assert!(s.starts_with('\'') && s.ends_with('\'') && s.len() >= 2);
    s[1..s.len() - 1].replace("''", "'")
}

#[test]
fn quoting_wraps_and_doubles() {
    assert_eq!(editor_quote("abc"), "'abc'");
    assert_eq!(editor_quote(""), "''");
    assert_eq!(editor_quote("a'b"), "'a''b'");
    assert_eq!(editor_unquote(&editor_quote("a'b''c")), "a'b''c");
}

#[test]
fn empty_action_list_is_no_actions_available() {
    let none: Vec<ActionOrCommand> = vec![];
    assert!(matches!(
        code_action_menu(&none),
        Err(BridgeError::NoActionsAvailable)
    ));
    assert_eq!(
        editor_code_actions(Some(vec![])),
        Some("lsp-show-error 'No actions available'".to_string())
    );
    assert_eq!(editor_code_actions(None), None);
}

#[test]
fn menu_preserves_order_one_entry_per_action() {
    let actions = vec![
        ActionOrCommand::Command(cmd("A", "a", None)),
        ActionOrCommand::Action(CodeAction {
            title: "B".to_string(),
            command: None,
        }),
        ActionOrCommand::Action(CodeAction {
            title: "C".to_string(),
            command: Some(cmd("C2", "c", None)),
        }),
    ];
    let menu = code_action_menu(&actions).unwrap();
    // One (title, command) pair per action, in input order; the action with
    // an attached command presents that command's title.
    let expected = "menu 'A' 'lsp-execute-command ''a'' ''\"null\"''' \
                    'B' 'lsp-apply-workspace-edit ''\"null\"''' \
                    'C2' 'lsp-execute-command ''c'' ''\"null\"'''";
    assert_eq!(menu, expected);
}

#[test]
fn double_encoding_unwraps_twice() {
    // Command with arguments ["x","y"]: unwrapping the embedded payload once
    // yields the literal text ["x","y"]; unwrapping twice yields the
    // two-element array.
    let c = cmd(
        "Fix",
        "quickfix",
        Some(vec![
            serde_json::Value::String("x".to_string()),
            serde_json::Value::String("y".to_string()),
        ]),
    );
    let select = execute_command_string(&c);
    let prefix = "lsp-execute-command 'quickfix' ";
    assert!(select.starts_with(prefix));
    let embedded = &select[prefix.len()..];
    // First unwrap: the editor's own quoting.
    let json_literal = editor_unquote(embedded);
    // Second unwrap: the JSON string literal.
    let once: String = serde_json::from_str(&json_literal).unwrap();
    assert_eq!(once, "[\"x\",\"y\"]");
    // A third parse of the recovered text yields the structured value.
    let twice: serde_json::Value = serde_json::from_str(&once).unwrap();
    assert_eq!(
        twice,
        serde_json::Value::Array(vec![
            serde_json::Value::String("x".to_string()),
            serde_json::Value::String("y".to_string()),
        ])
    );
    let menu = code_action_menu(&vec![ActionOrCommand::Command(c)]).unwrap();
    assert!(menu.starts_with("menu 'Fix' '"));
}

#[test]
fn double_encoding_survives_breaking_characters() {
    // Quotes, newlines and brackets in the argument must come back
    // bit for bit after both unwraps.
    let tricky = "a'b\"c\nd]e[f";
    let c = cmd("T", "t", Some(vec![serde_json::Value::String(tricky.to_string())]));
    let select = execute_command_string(&c);
    let prefix = "lsp-execute-command 't' ";
    let json_literal = editor_unquote(&select[prefix.len()..]);
    let once: String = serde_json::from_str(&json_literal).unwrap();
    let twice: serde_json::Value = serde_json::from_str(&once).unwrap();
    assert_eq!(
        twice,
        serde_json::Value::Array(vec![serde_json::Value::String(tricky.to_string())])
    );
}

#[test]
fn absent_arguments_serialize_as_null() {
    let c = cmd("N", "n", None);
    let select = execute_command_string(&c);
    let json_literal = editor_unquote(&select["lsp-execute-command 'n' ".len()..]);
    let once: String = serde_json::from_str(&json_literal).unwrap();
    assert_eq!(once, "null");
}
