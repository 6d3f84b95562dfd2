[package]
name = "atlas_remote"
version = "0.1.0"
edition = "2021"
publish = false

[dependencies]
sha2 = "=0.10.9"
aes-gcm = "=0.10.3"
generic-array = "=0.14.7"
rand = "=0.8.8"
chrono = "=0.4.45"
ed25519-dalek = { version = "=2.2.0", features = ["rand_core"] }
x25519-dalek = { version = "=2.0.1", features = ["static_secrets", "getrandom"] }
serde = { version = "=1.0.229", features = ["derive"] }
serde_json = "=1.0.154"
toml = "=0.8.23"
anyhow = "=1.0.104"
thiserror = "=1.0.69"
tracing = "=0.1.44"
tracing-subscriber = { version = "=0.3.23", features = ["env-filter"] }
tokio = { version = "=1.54.1", features = ["full"] }
url = "=2.5.8"
warp = "=0.3.7"
futures-util = { version = "=0.3.34", features = ["sink"] }
