[package]
name = "node_runtime"
version = "0.1.0"
edition = "2021"
publish = false

[dependencies]
anyhow = "=1.0.104"
async-compression = { version = "=0.3.15", features = ["gzip", "futures-io"] }
async-tar = { version = "=0.4.2", default-features = false }
async-trait = "=0.1.92"
futures = "=0.3.34"
log = "=0.4.34"
semver = "=1.0.28"
serde = { version = "=1.0.229", features = ["derive"] }
serde_json = "=1.0.154"
smol = "=1.3.0"
