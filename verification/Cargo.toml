[package]
name = "geyser_filter"
version = "0.1.0"
edition = "2021"
publish = false

[dependencies]
redis = "=1.7.1"
solana-program = "=5.1.0"
solana-sdk = "=5.0.0"
agave-geyser-plugin-interface = "=3.1.14"
serde = { version = "=1.0.229", features = ["derive"] }
serde_json = "=1.0.151"
