[package]
name = "duckdb_ext_tools"
version = "0.1.0"
edition = "2021"
publish = false

[dependencies]
anyhow = "*"
cargo_metadata = "*"
clap = { version = "*", features = ["derive"] }
serde_json = "*"
target-lexicon = "*"
thiserror = "*"
