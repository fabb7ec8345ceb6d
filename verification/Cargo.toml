[package]
name = "druid-io"
version = "0.1.0"
edition = "2021"
publish = false

[dependencies]
serde_json = { version = "1", features = ["preserve_order"] }
serde = { version = "1", features = ["derive"] }
reqwest = { version = "0.11", default-features = false }
thiserror = "1"
