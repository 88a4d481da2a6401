[package]
name = "kadabra_runes"
version = "0.1.0"
edition = "2021"
publish = false

[dependencies]
anyhow = "1"
async-lsp = "0.2"
async-process = "2"
clap = { version = "4", features = ["derive"] }
lsp-types = "0.95"
rmcp = { version = "*", features = ["server", "macros", "transport-io"] }
schemars = "1"
serde = { version = "1", features = ["derive"] }
serde_json = "1"
thiserror = "2"
tokio = { version = "1", features = ["full"] }
tower = "0.5"
tracing = "0.1"
tracing-subscriber = { version = "0.3", features = ["env-filter"] }
