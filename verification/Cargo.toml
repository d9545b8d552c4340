[package]
name = "mamcli"
version = "0.1.0"
edition = "2021"
publish = false

[dependencies]
async-trait = "=0.1.92"
chrono = { version = "=0.4.45", features = ["serde"] }
clap = { version = "=4.6.7", features = ["derive"] }
serde = { version = "=1.0.229", features = ["derive"] }
serde_json = { version = "=1.0.154", features = ["float_roundtrip", "unbounded_depth"] }
sqlx = { version = "=0.8.6", default-features = false, features = ["runtime-tokio", "sqlite", "migrate"] }
thiserror = "=2.0.21"
ulid = "=1.2.1"

[dev-dependencies]
tokio = { version = "=1.54.1", features = ["rt", "time"] }
tempfile = "=3.27.0"
