[package]
name = "svc-storage"
version = "0.1.0"
edition = "2021"
publish = false

[dependencies]
uuid = { version = "1", features = ["v4"] }
tokio = { version = "1", features = ["rt-multi-thread", "macros", "signal"] }
tokio-postgres = { version = "0.7", features = ["with-uuid-1", "with-chrono-0_4"] }
chrono = "0.4"
tonic = { version = "*", default-features = false }
dotenv = "0.15"
log = "0.4"
anyhow = "1"
