[package]
name = "stake_deposit_interceptor"
version = "0.1.0"
edition = "2021"
publish = false

[dependencies]
solana-program = "=5.1.0"
solana-stake-interface = { version = "*", features = ["bincode"] }
solana-system-interface = { version = "*", features = ["bincode"] }
spl-stake-pool = { version = "=2.2.0", features = ["no-entrypoint"] }
spl-associated-token-account = { version = "=8.0.0", features = ["no-entrypoint"] }
spl-token = { version = "=9.0.0", features = ["no-entrypoint"] }
serde = { version = "=1.0.229", features = ["derive"] }

[dev-dependencies]
borsh = "=1.8.1"
