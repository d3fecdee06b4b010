[package]
name = "signal_attestation"
version = "0.1.0"
edition = "2021"
publish = false

[dependencies]
rand = "0.8"
tokio = { version = "1", features = ["rt-multi-thread", "macros"] }
criterion = { version = "0.5", default-features = false }
