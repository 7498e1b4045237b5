[package]
name = "rust_qt_binding_generator"
version = "0.3.6"
edition = "2021"
publish = false

[dependencies]
clap = "2"
regex = "1"
serde = { version = "1", features = ["derive"] }
serde_json = "1"
toml = "0.5"
