[package]
name = "ledger_core"
version = "0.1.0"
edition = "2021"
publish = false

[dependencies]
sha2 = "=0.11.0"
chrono = { version = "=0.4.45", features = ["serde"] }
uuid = { version = "=1.27.0", features = ["v4"] }
scylla = "=1.9.0"
tokio = { version = "=1.53.2", features = ["sync", "rt", "macros"] }
serde = { version = "=1.0.229", features = ["derive"] }
bincode = "=1.3.3"
anyhow = "=1.0.104"
thiserror = "=2.0.21"
