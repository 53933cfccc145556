[package]
name = "qute_analysis"
version = "0.1.0"
edition = "2021"
publish = false

[dependencies]
tree-sitter = "=0.20.10"
pepegsitter = "=0.2.2"
dashmap = "=5.5.3"
tower-lsp = "=0.20.0"
tokio = { version = "=1.53.2", features = ["full"] }
serde_json = "=1.0.151"
ropey = "=1.6.1"
clap = { version = "=4.6.7", features = ["derive"] }
