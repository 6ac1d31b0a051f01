[package]
name = "pine_analysis"
version = "0.1.0"
edition = "2021"
publish = false

[dependencies]
serde = { version = "1", features = ["derive"] }
tower-lsp = "0.20"
tree-sitter = "0.25"
