[package]
name = "holo_rea"
version = "0.1.0"
edition = "2021"
publish = false

[dependencies]
multihash = "=0.8.0"
rust-base58 = "=0.0.4"
hdk = "=0.7.1"
serde = { version = "1", features = ["derive"] }
serde_json = "1"
