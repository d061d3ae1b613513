[package]
name = "rust_package"
version = "0.1.0"
edition = "2021"
publish = false

[dependencies]
anyhow = "=1.0.104"
figment = { version = "=0.10.19", features = ["toml", "env"] }
thiserror = "=1.0.69"
tracing = "=0.1.44"
tracing-subscriber = { version = "=0.3.23", features = ["env-filter"] }

[dev-dependencies]
figment = { version = "=0.10.19", features = ["toml", "env", "test"] }
