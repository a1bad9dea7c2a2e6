//! The shared data model of the bridge: editor-side requests and positions,
//! static configuration, and the protocol-side values that the translation,
//! fusion and presentation logic works on.
use vstd::prelude::*;

verus! {

/// The payload of requests that carry none; it offers no constructor, so no
/// value of it is ever made.
pub struct Void {
    _reserved: (),
}

/// The failures this layer can produce. A failed coordinate translation
/// abandons the operation; an empty action list becomes a user-visible
/// message; a serialization failure is a programming-error-level fault.
#[derive(Clone, Copy, Debug, PartialEq, Eq)]
pub enum BridgeError {
    PositionOutOfRange,
    NoActionsAvailable,
    SerializationFailure,
}

// Configuration

/// Static configuration: per-language backend launch data plus global
/// server behaviour. Loaded once, read-only thereafter.
#[derive(Clone, Debug)]
pub struct Config {
    pub language: std::collections::HashMap<String, LanguageConfig>,
    pub server: ServerConfig,
    pub verbosity: u8,
    pub snippet_support: bool,
}

/// Global server behaviour: session scoping and timeout.
#[derive(Clone, Debug)]
pub struct ServerConfig {
    pub session: String,
    pub timeout: u64,
}

/// One language's backend: launch command, root-detection globs, and the
/// offset encoding the connection uses for its entire lifetime.
#[derive(Clone, Debug)]
pub struct LanguageConfig {
    pub filetypes: Vec<String>,
    pub roots: Vec<String>,
    pub command: String,
    pub args: Vec<String>,
    pub initialization_options: Option<serde_json::Value>,
    pub offset_encoding: OffsetEncoding,
}

impl Default for ServerConfig {
    fn default() -> (r: Self)
        ensures
            r.session@ == Seq::<char>::empty(),
            r.timeout == 0,
    {
        ServerConfig { session: String::new(), timeout: 0 }
    }
}

/// The encoding assumed for a backend that does not declare one.
pub fn default_offset_encoding() -> (r: OffsetEncoding)
    ensures
        r is Utf16,
{
    OffsetEncoding::Utf16
}

// Editor

/// A request's editor-side context, immutable per request.
#[derive(Clone, Debug)]
pub struct EditorMeta {
    pub session: String,
    pub client: Option<String>,
    pub buffile: String,
    pub filetype: String,
    pub version: u64,
    pub fifo: Option<String>,
}

pub type EditorParams = toml::Value;

/// An inbound editor request: its context, method name and raw parameters.
#[derive(Clone, Debug)]
pub struct EditorRequest {
    pub meta: EditorMeta,
    pub method: String,
    pub params: EditorParams,
}

/// A command sent back to the editor for the session in `meta`.
pub struct EditorResponse {
    pub meta: EditorMeta,
    pub command: String,
}

pub type SessionId = String;
pub type LanguageId = String;
pub type RootPath = String;

/// The key identifying one backend connection; no two open connections may
/// share one.
#[derive(PartialEq, Eq, Hash, Debug, Clone)]
pub struct Route {
    pub session: SessionId,
    pub language: LanguageId,
    pub root: RootPath,
}

pub struct EditorCompletion {
    pub offset: u64,
}

pub struct TextDocumentDidOpenParams {
    pub draft: String,
}

pub struct TextDocumentDidChangeParams {
    pub draft: String,
}

pub struct TextDocumentCompletionParams {
    pub position: KakounePosition,
    pub completion: EditorCompletion,
}

pub struct PositionParams {
    pub position: KakounePosition,
}

/// Which of the hover text and the diagnostics text is displayed when both
/// are present.
#[derive(Clone, Copy, Debug, PartialEq, Eq)]
pub enum HoverPrecedence {
    DiagnosticsOnly,
    InfoOnly,
    DiagnosticsFirst,
    InfoFirst,
}

impl Default for HoverPrecedence {
    fn default() -> (r: Self)
        ensures
            r is InfoFirst,
    {
        HoverPrecedence::InfoFirst
    }
}

pub struct HoverParams {
    pub position: KakounePosition,
    pub info_precedence: HoverPrecedence,
}

pub struct TextDocumentRenameParams {
    pub position: KakounePosition,
    pub new_name: String,
}

pub struct WindowProgress {
    pub title: String,
    pub message: Option<String>,
    pub percentage: Option<String>,
    pub done: Option<bool>,
}

// Language server

/// An inbound message from a backend: a server-initiated call, or the reply
/// to one of the bridge's own requests.
#[derive(Debug)]
pub enum ServerMessage {
    Request(jsonrpc_core::Call),
    Response(jsonrpc_core::Output),
}

/// An editor position; `column` is a byte offset, never a character index.
#[derive(Debug, PartialEq, Clone, Copy)]
pub struct KakounePosition {
    pub line: u64,
    pub column: u64,
}

/// An ordered pair of editor positions.
#[derive(Debug, PartialEq, Clone, Copy)]
pub struct KakouneRange {
    pub start: KakounePosition,
    pub end: KakounePosition,
}

/// How a backend language server interprets the `character` field of a
/// protocol position within a line.
#[derive(Clone, Copy, Debug)]
pub enum OffsetEncoding {
    /// UTF-8 code units, that is bytes.
    Utf8,
    /// UTF-16 code units.
    Utf16,
}

// Protocol-side values, held as plain data so the logic on them can be
// stated and checked.

/// A protocol position: zero-based line and offset within the line, the
/// offset counted in the connection's offset encoding.
#[derive(Debug, PartialEq, Clone, Copy)]
pub struct LspPosition {
    pub line: u64,
    pub character: u64,
}

/// A protocol range: `start` and `end` positions, `start <= end` under
/// lexicographic order.
#[derive(Debug, PartialEq, Clone, Copy)]
pub struct LspRange {
    pub start: LspPosition,
    pub end: LspPosition,
}

/// One diagnostic previously pushed by the backend for a file.
#[derive(Debug, Clone)]
pub struct Diagnostic {
    pub range: LspRange,
    pub severity: Option<u64>,
    pub message: String,
}

/// A hover text fragment: plain text, or text tagged with a language.
#[derive(Debug, Clone)]
pub enum MarkedString {
    Plain(String),
    Language(LanguageString),
}

/// Text tagged with the language it is written in.
#[derive(Debug, Clone)]
pub struct LanguageString {
    pub language: String,
    pub value: String,
}

/// The body of a hover response: one fragment, an ordered list of
/// fragments, or rich markup whose raw text is used as-is.
#[derive(Debug, Clone)]
pub enum HoverContents {
    Scalar(MarkedString),
    Array(Vec<MarkedString>),
    Markup(String),
}

/// A hover response.
#[derive(Debug, Clone)]
pub struct Hover {
    pub contents: HoverContents,
}

/// A protocol command: a title for display, the identifier the backend
/// executes, and its argument payload.
#[derive(Debug, Clone)]
pub struct Command {
    pub title: String,
    pub command: String,
    pub arguments: Option<Vec<serde_json::Value>>,
}

/// A protocol code action: a title and, optionally, an attached command.
#[derive(Debug, Clone)]
pub struct CodeAction {
    pub title: String,
    pub command: Option<Command>,
}

/// An entry of a code-action response: an action with an attached command
/// is presentation-equivalent to that command.
#[derive(Debug, Clone)]
pub enum ActionOrCommand {
    Command(Command),
    Action(CodeAction),
}

// The outside types that fields above carry through; each is opaque here.

/// The JSON value type of serde_json, carried through untouched.
#[verifier::external_type_specification]
#[verifier::external_body]
pub struct ExJsonValue(serde_json::Value);

/// The TOML value type, the raw form of editor request parameters.
#[verifier::external_type_specification]
#[verifier::external_body]
pub struct ExTomlValue(toml::Value);

/// A server-initiated JSON-RPC call.
#[verifier::external_type_specification]
#[verifier::external_body]
pub struct ExRpcCall(jsonrpc_core::Call);

/// A JSON-RPC reply to one of the bridge's own requests.
#[verifier::external_type_specification]
#[verifier::external_body]
pub struct ExRpcOutput(jsonrpc_core::Output);

/// Relies on `Clone` for serde_json values; nothing is assumed of the copy.
pub assume_specification[ <serde_json::Value as Clone>::clone ](v: &serde_json::Value) -> serde_json::Value;

/// Relies on `Clone` for TOML values; nothing is assumed of the copy.
pub assume_specification[ <toml::Value as Clone>::clone ](v: &toml::Value) -> toml::Value;

} // verus!
