[package]
name = "ockam"
version = "0.1.0"
edition = "2021"
publish = false

[dependencies]
async-trait = "=0.1.92"
ockam_key_exchange_core = "=0.27.0"
ockam_vault_core = "=0.29.0"
serde = { version = "=1.0.229", features = ["derive"] }
serde-big-array = "=0.5.1"
serde_bare = "=0.5.0"

[dev-dependencies]
ockam_vault = "*"
