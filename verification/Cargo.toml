[package]
name = "packet_protocol"
version = "0.1.0"
edition = "2021"
publish = false

[dependencies]
magic-crypt = "=3.1.13"
ristretto255-dh = "=0.3.0"
rand_core = { version = "=0.5.1", features = ["getrandom"] }
serde = { version = "=1.0.229", features = ["derive"] }
serde_json = "=1.0.154"
tokio = { version = "=1.54.1", features = ["full"] }
anyhow = "=1.0.104"
async-trait = "=0.1.92"
log = "=0.4.35"
env_logger = "=0.11.11"
