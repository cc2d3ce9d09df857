[package]
name = "nkeys"
version = "0.1.0"
edition = "2021"
publish = false

[dependencies]
data-encoding = "2.11.1"
rand = "0.7.3"
signatory = { version = "0.27.1", features = ["ed25519", "std"] }
ecies-ed25519 = "0.5.1"
serde = { version = "1", features = ["derive"] }
serde_json = "1"
structopt = "0.3.26"
env_logger = "0.7.1"
