[package]
name = "swap_agent"
version = "0.1.0"
edition = "2021"
publish = false

[dependencies]
bincode = "1.3.3"
serde = { version = "1", features = ["derive"] }
serde_derive = "1"
serde_json = "1"
solana-sdk = "=2.3.1"
spl-associated-token-account = "=7.0.0"
tokio = { version = "1", features = ["macros", "rt-multi-thread"] }
