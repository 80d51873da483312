[package]
name = "fee_spec"
version = "0.1.0"
edition = "2021"
publish = false

[dependencies]
anyhow = "1"
bdk = { version = "0.16", default-features = false }
