//! The action presenter: a heterogeneous list of protocol actions and
//! commands becomes a uniform, safely escaped menu of executable editor
//! commands. The argument payload is embedded double-encoded — serialized to
//! its structured form, then written again as a JSON string literal — so
//! that it survives both the editor's own quoting and the structured-config
//! parse its final consumer applies.
use vstd::prelude::*;
use crate::quoting::{editor_quote, editor_quote_spec, json_quote, json_str_lit};
use crate::types::{ActionOrCommand, BridgeError, Command};

verus! {

/// What `serde_json::to_string` writes for a list of JSON values: its array
/// text, a function of the values alone.
pub uninterp spec fn args_json_of(values: Seq<serde_json::Value>) -> Seq<char>;

/// Relies on `serde_json::to_string` for a vector of JSON values: its JSON
/// array text, a function of the values alone; writing JSON values to a
/// string cannot fail, since every object key of a value is a string.
#[verifier::external_body]
fn values_json(values: &Vec<serde_json::Value>) -> (r: String)
    ensures
        r@ == args_json_of(values@),
{
    match serde_json::to_string(values) {
        Ok(r) => r,
        Err(_) => String::new(),
    }
}

/// The structured serialization of a command's argument payload: the JSON
/// array of its arguments, or `null` when it carries none — as serde_json
/// writes an absent payload.
pub open spec fn command_args_payload(c: Command) -> Seq<char> {
    match c.arguments {
        None => "null"@,
        Some(v) => args_json_of(v@),
    }
}

/// Serializes a command's argument payload to its structured form.
pub fn arguments_json(c: &Command) -> (r: String)
    ensures
        r@ == command_args_payload(*c),
{
    match &c.arguments {
        None => <String as vstd::string::StringExecFns>::from_str("null"),
        Some(v) => values_json(v),
    }
}

/// The selection command of a command entry: the identifier and the
/// double-encoded argument payload, each quoted for the editor.
pub open spec fn execute_command_text(c: Command) -> Seq<char> {
    "lsp-execute-command "@ + editor_quote_spec(c.command@) + " "@ + editor_quote_spec(
        json_str_lit(command_args_payload(c)),
    )
}

/// The selection command of a bare action: it applies a workspace edit; its
/// payload is the double-encoded serialization of the absent arguments.
pub open spec fn workspace_edit_text() -> Seq<char> {
    "lsp-apply-workspace-edit "@ + editor_quote_spec(json_str_lit("null"@))
}

/// Builds the selection command for a command entry.
pub fn execute_command_string(c: &Command) -> (r: String)
    ensures
        r@ == execute_command_text(*c),
{
    let mut out = String::new();
    out.append("lsp-execute-command ");
    let qcmd = editor_quote(c.command.as_str());
    out.append(qcmd.as_str());
    out.append(" ");
    let payload = arguments_json(c);
    let lit = json_quote(payload.as_str());
    let qargs = editor_quote(lit.as_str());
    out.append(qargs.as_str());
    out
}

/// Builds the selection command for a bare action.
pub fn workspace_edit_string() -> (r: String)
    ensures
        r@ == workspace_edit_text(),
{
    let mut out = String::new();
    out.append("lsp-apply-workspace-edit ");
    let payload = <String as vstd::string::StringExecFns>::from_str("null");
    let lit = json_quote(payload.as_str());
    let qargs = editor_quote(lit.as_str());
    out.append(qargs.as_str());
    out
}

/// The (title, selection command) pair one entry presents. An action with an
/// attached command is presentation-equivalent to that command; a bare
/// action keeps its own title and applies a workspace edit when selected.
pub open spec fn menu_pair(a: ActionOrCommand) -> (Seq<char>, Seq<char>) {
    match a {
        ActionOrCommand::Command(c) => (
            editor_quote_spec(c.title@),
            editor_quote_spec(execute_command_text(c)),
        ),
        ActionOrCommand::Action(act) => match act.command {
            Some(c) => (editor_quote_spec(c.title@), editor_quote_spec(execute_command_text(c))),
            None => (editor_quote_spec(act.title@), editor_quote_spec(workspace_edit_text())),
        },
    }
}

/// One menu entry: the pair joined by a single space.
pub open spec fn menu_entry_text(a: ActionOrCommand) -> Seq<char> {
    menu_pair(a).0 + " "@ + menu_pair(a).1
}

/// The pairs of the whole menu, one per action, in input order.
pub open spec fn menu_pairs(actions: Seq<ActionOrCommand>) -> Seq<(Seq<char>, Seq<char>)> {
    actions.map(|i: int, a: ActionOrCommand| menu_pair(a))
}

/// Law: menu construction presents exactly one (title, command) pair per
/// input action, and keeps the backend's priority order.
pub proof fn lemma_menu_one_pair_per_action(actions: Seq<ActionOrCommand>)
    ensures
        menu_pairs(actions).len() == actions.len(),
        forall|i: int|
            0 <= i < actions.len() ==> menu_pairs(actions)[i] == menu_pair(actions[i]),
{
}

/// The first `n` menu entries joined by single spaces.
pub open spec fn menu_entries_upto(actions: Seq<ActionOrCommand>, n: int) -> Seq<char>
    decreases n,
{
    if n <= 0 {
        Seq::empty()
    } else if n == 1 {
        menu_entry_text(actions[0])
    } else {
        menu_entries_upto(actions, n - 1) + " "@ + menu_entry_text(actions[n - 1])
    }
}

/// The complete menu command.
pub open spec fn menu_command_text(actions: Seq<ActionOrCommand>) -> Seq<char> {
    "menu "@ + menu_entries_upto(actions, actions.len() as int)
}

/// The user-visible message for an empty action list.
pub open spec fn no_actions_command_text() -> Seq<char> {
    "lsp-show-error "@ + editor_quote_spec("No actions available"@)
}

/// Builds one menu entry.
fn menu_entry_string(a: &ActionOrCommand) -> (r: String)
    ensures
        r@ == menu_entry_text(*a),
{
    let (title, select): (&String, String) = match a {
        ActionOrCommand::Command(c) => (&c.title, execute_command_string(c)),
        ActionOrCommand::Action(act) => match &act.command {
            Some(c) => (&c.title, execute_command_string(c)),
            None => (&act.title, workspace_edit_string()),
        },
    };
    let mut out = editor_quote(title.as_str());
    out.append(" ");
    let qselect = editor_quote(select.as_str());
    out.append(qselect.as_str());
    out
}

/// Builds the menu command for a non-empty action list; an empty list fails
/// with `NoActionsAvailable` instead of producing an empty menu.
pub fn code_action_menu(actions: &Vec<ActionOrCommand>) -> (r: Result<String, BridgeError>)
    ensures
        match r {
            Ok(m) => actions@.len() > 0 && m@ == menu_command_text(actions@),
            Err(e) => e is NoActionsAvailable && actions@.len() == 0,
        },
{
    if actions.len() == 0 {
        return Err(BridgeError::NoActionsAvailable);
    }
    let mut args = String::new();
    let mut i: usize = 0;
    while i < actions.len()
        invariant
            i <= actions@.len(),
            args@ == menu_entries_upto(actions@, i as int),
        decreases actions@.len() - i,
    {
        let entry = menu_entry_string(&actions[i]);
        if i > 0 {
            args.append(" ");
        }
        args.append(entry.as_str());
        i = i + 1;
    }
    let mut out = String::new();
    out.append("menu ");
    out.append(args.as_str());
    Ok(out)
}

/// Routes a code-action response to an editor command: no response means no
/// command, an empty list becomes the user-visible no-actions message, and
/// anything else becomes the menu.
pub fn editor_code_actions(result: Option<Vec<ActionOrCommand>>) -> (r: Option<String>)
    ensures
        match result {
            None => r is None,
            Some(v) => r matches Some(cmd) && cmd@ == (if v@.len() == 0 {
                no_actions_command_text()
            } else {
                menu_command_text(v@)
            }),
        },
{
    match result {
        None => None,
        Some(v) => match code_action_menu(&v) {
            Ok(m) => Some(m),
            Err(_) => {
                let mut out = String::new();
                out.append("lsp-show-error ");
                let q = editor_quote("No actions available");
                out.append(q.as_str());
                Some(out)
            },
        },
    }
}

} // verus!
