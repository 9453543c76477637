[package]
name = "nitrogql"
version = "0.1.0"
edition = "2021"
publish = false

[dependencies]
anyhow = "*"
async-executor = "*"
clap = { version = "4", features = ["derive"] }
globmatch = "*"
itertools = "*"
json-writer = "*"
log = "*"
once_cell = "*"
serde = { version = "1", features = ["derive"] }
serde_json = "*"
serde_yaml = "*"
simple_logger = "*"
thiserror = "*"
