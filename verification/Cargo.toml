[package]
name = "kak_lsp"
version = "0.1.0"
edition = "2021"
publish = false

[dependencies]
jsonrpc-core = "*"
lsp-types = "*"
serde = { version = "1", features = ["derive"] }
serde_json = "1"
toml = "*"
url = "2"
