[package]
name = "geyser_redis_sink"
version = "0.1.0"
edition = "2021"
publish = false

[dependencies]
agave-geyser-plugin-interface = "=3.1.14"
base58 = "=0.2.0"
log = "=0.4.34"
redis = { version = "=1.8.0", features = ["tokio-comp"] }
serde_json = "=1.0.154"
solana-logger = "=3.0.0"
solana-sdk = "=3.0.0"
tokio = { version = "=1.54.1", features = ["rt-multi-thread"] }
