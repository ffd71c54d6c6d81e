[package]
name = "franklin_tx"
version = "0.1.0"
edition = "2021"
publish = false

[dependencies]
franklin-crypto = "=0.1.0"
sapling-crypto_ce = "*"
rust-crypto = "=0.2.36"
hex = "=0.4.3"
bigdecimal = { version = "=0.4.11", features = ["serde"] }
serde = { version = "=1.0.229", features = ["derive"] }
serde_json = "=1.0.154"
actix-web = "=4.18.1"
env_logger = "=0.11.11"
log = "=0.4.34"
web3 = { version = "=0.19.0", default-features = false }

[dev-dependencies]
rand = "0.4"
