[package]
name = "btc_inclusion"
version = "0.1.0"
edition = "2021"
publish = false

[dependencies]
hex = "=0.4.3"
sha2 = "=0.10.9"
serde_json = "=1.0.154"
serde = { version = "=1.0.229", features = ["derive"] }
borsh = { version = "=1.8.1", features = ["derive"] }
base64 = "=0.22.1"
bitcoin = "=0.32.102"
clap = { version = "=4.6.7", features = ["derive"] }
reqwest = { version = "=0.12.28", features = ["json"] }
tokio = { version = "=1.54.1", features = ["macros", "rt-multi-thread"] }
near-sdk = { version = "=5.29.1", features = ["non-contract-usage"] }
