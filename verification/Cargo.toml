[package]
name = "token_lending_records"
version = "0.1.0"
edition = "2021"
publish = false

[dependencies]
chrono = { version = "=0.4.45", default-features = false, features = ["std"] }
solana-sdk = "=1.18.26"
spl-token-lending = { version = "=0.2.0", features = ["no-entrypoint"] }
tracing = "=0.1.44"
