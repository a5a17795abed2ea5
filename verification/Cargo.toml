[package]
name = "firecrawl_cli"
version = "0.1.0"
edition = "2021"
publish = false

[dependencies]
chrono = "*"
slug = "*"
reqwest = { version = "*", default-features = false, features = ["blocking", "json"] }
serde = { version = "*", features = ["derive"] }
serde_json = "*"
serde_yaml = "*"
toml = "*"
clap = { version = "*", features = ["derive"] }
dirs = "*"
dotenvy = "*"
anyhow = "*"
log = "*"
