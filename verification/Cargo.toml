[package]
name = "stake_pool_bot"
version = "0.1.0"
edition = "2021"
publish = false

[dependencies]
serde = { version = "=1.0.229", features = ["derive"] }
serde_json = { version = "=1.0.154", features = ["preserve_order"] }
solana-cli-config = "=1.7.11"
solana-program = "=1.7.11"
solana-sdk = "=1.7.11"
spl-stake-pool = { version = "=0.4.0", features = ["no-entrypoint"] }
