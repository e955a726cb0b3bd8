[package]
name = "trust_levels"
version = "0.1.0"
edition = "2021"
publish = false

[dependencies]
serde = { version = "1", features = ["derive"] }
serde_derive = "1"
thiserror = "1"

[dev-dependencies]
serde_json = "1"
