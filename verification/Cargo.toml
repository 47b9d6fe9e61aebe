[package]
name = "mehen"
version = "0.1.0"
edition = "2021"
publish = false

[dependencies]
tree-sitter = "*"
tree-sitter-python = "*"
tree-sitter-rust = "*"
tree-sitter-typescript = "*"
tree-sitter-go = "*"
regex = "*"
serde = { version = "*", features = ["derive"] }
serde_json = "*"
clap = { version = "*", features = ["derive"] }
globset = "*"
walkdir = "*"
crossbeam = "*"
log = "*"
env_logger = "*"
owo-colors = "*"
termcolor = "*"
petgraph = "*"
gix = "*"
