[package]
name = "zewif_zwl"
version = "0.1.0"
edition = "2021"
publish = false

[dependencies]
anyhow = "=1.0.104"
hex = "=0.4.3"
sapling-crypto = { version = "=0.9.0", default-features = false }
zcash_client_backend = { version = "=0.25.0", default-features = false }
zcash_protocol = "=0.11.0"
