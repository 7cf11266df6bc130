[package]
name = "claim_orchestrator"
version = "0.1.0"
edition = "2021"
publish = false

[dependencies]
alloy = { version = "0.5", features = ["contract", "network", "provider-http", "rpc-client", "rpc-types", "signer-local", "sol-types", "transport-http"] }
alloy-chains = "0.1"
eyre = "0.6"
rand = "=0.8.8"
reqwest = { version = "0.12", default-features = false, features = ["json"] }
serde = { version = "1", features = ["derive"] }
serde_json = "1"
tokio = { version = "1", features = ["rt-multi-thread", "macros", "time", "fs", "io-util"] }
toml = "0.8"
tracing = "0.1"
