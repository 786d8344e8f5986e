[package]
name = "quasar-rs"
version = "0.1.0"
edition = "2021"
publish = false

[dependencies]
rug = { version = "1", default-features = false, features = ["integer", "rand"] }
serde = { version = "1", features = ["derive"] }
serde_json = "1"
