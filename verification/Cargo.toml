[package]
name = "textgres"
version = "0.1.0"
edition = "2021"
publish = false

[dependencies]
anyhow = "1"
directories = "*"
futures-util = "0.3"
native-tls = { version = "0.2", features = ["vendored"] }
postgres-native-tls = "0.5"
ratatui = "0.30"
ratatui-textarea = "*"
serde = { version = "1", features = ["derive"] }
tokio = { version = "1", features = ["full"] }
tokio-postgres = "0.7"
toml = "*"
tree-sitter = "*"
tree-sitter-highlight = "*"
tree-sitter-sequel = "*"
unicode-width = "0.2"

[dev-dependencies]
tempfile = "3"
