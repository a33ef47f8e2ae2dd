[package]
name = "zosimos"
version = "0.1.0"
edition = "2021"
publish = false

[dependencies]
image-canvas = "*"
palette = "*"
rustc_apfloat = "*"
serde = { version = "*", features = ["derive"] }
serde_cbor = "*"
