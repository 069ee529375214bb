[package]
name = "listen_core"
version = "0.1.0"
edition = "2021"
publish = false

[dependencies]
actix-web = { version = "=4.18.1", default-features = false, features = ["macros"] }
actix-web-lab = { version = "=0.29.5", default-features = false }
anyhow = "=1.0.104"
base64 = "=0.22.1"
carbon-core = { version = "=1.0.0", default-features = false }
chrono = { version = "=0.4.45", default-features = false, features = ["clock"] }
futures = "=0.3.34"
futures-util = "=0.3.34"
log = "=0.4.34"
once_cell = "=1.21.4"
serde = { version = "=1.0.229", features = ["derive"] }
serde_json = "=1.0.154"
solana-account-decoder = { version = "=3.1.14", default-features = false }
solana-sdk = { version = "3", default-features = false }
spl-associated-token-account = { version = "=8.0.0", default-features = false }
spl-token = "=9.0.0"
tokio = { version = "=1.54.1", features = ["macros", "rt", "sync", "time"] }
tracing = "=0.1.44"
