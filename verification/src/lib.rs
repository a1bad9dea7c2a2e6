//! The presentation and translation boundary of an editor-to-language-server
//! bridge: byte-oriented editor coordinates against the protocol's offset
//! encoding, fusion of diagnostics with hover results under a precedence
//! policy, and safely double-encoded action menus for the editor's command
//! channel.
pub mod codeaction;
pub mod hover;
pub mod offset;
pub mod quoting;
pub mod text;
pub mod types;
