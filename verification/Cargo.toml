[package]
name = "spice_parser_core"
version = "0.1.0"
edition = "2021"
publish = false

[dependencies]
nom = "7"
anyhow = "1"
serde = { version = "1", features = ["derive"] }
serde_json = "1"
codespan-reporting = "0.11"
structopt = "0.3"
tokio = { version = "1", features = ["io-std", "macros", "rt-multi-thread", "sync"] }
tower-lsp = "0.20"
