[package]
name = "rust_introspect"
version = "0.1.0"
edition = "2021"
publish = false

[dependencies]
syn = { version = "2.0", features = ["full"] }
quote = "1.0"
serde = { version = "1.0", features = ["derive"] }
serde_json = "1.0"
