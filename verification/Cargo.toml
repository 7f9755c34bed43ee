[package]
name = "s2n-quic-crypto"
version = "0.1.0"
edition = "2021"
publish = false

[dependencies]
aws-lc-rs = "=1.18.2"
s2n-quic-core = "=0.91.0"
zeroize = "=1.9.1"
criterion = { version = "=0.8.2", default-features = false }
