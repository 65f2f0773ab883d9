[package]
name = "candlechart"
version = "0.1.0"
edition = "2021"
publish = false

[dependencies]
serde = { version = "1", features = ["derive"] }
serde_json = "1"
log = "0.4"
tokio = { version = "1", default-features = false, features = ["time", "rt", "macros"] }
