[package]
name = "slapdb"
version = "0.1.0"
edition = "2021"
publish = false

[dependencies]
time = { version = "*", features = ["serde-well-known"] }
clap = { version = "*", features = ["derive"] }
serde = { version = "*", features = ["derive"] }
tokio = { version = "*", features = ["macros", "rt-multi-thread", "fs"] }
diesel = { version = "*", features = ["sqlite", "returning_clauses_for_sqlite_3_35"] }
diesel-async = { version = "*", features = ["bb8", "sync-connection-wrapper", "sqlite"] }
async-sqlite = "*"
