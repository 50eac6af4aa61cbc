[package]
name = "solana_wallet"
version = "0.1.0"
edition = "2021"
publish = false

[dependencies]
bincode = "=1.3.3"
bip39 = "=2.2.2"
rand = "=0.8.8"
reqwest = { version = "=0.11.27", default-features = false }
serde = { version = "=1.0.229", features = ["derive"] }
serde_json = "=1.0.154"
solana-sdk = "=1.18.26"
spl-associated-token-account = { version = "=2.3.0", features = ["no-entrypoint"] }
spl-token = { version = "=4.0.0", features = ["no-entrypoint"] }
tokio = { version = "=1.54.1", features = ["macros", "rt-multi-thread"] }
