[package]
name = "classified"
version = "0.1.0"
edition = "2021"
publish = false

[dependencies]
secrecy = "0.10"
subtle = "2"
zeroize = "1"
tokio = { version = "1", features = ["full"] }
tokio-stream = "0.1"
futures = "0.3"
serde = { version = "1", features = ["derive"] }
toml = "*"
tracing = "0.1"
thiserror = "*"
async-trait = "*"
opentelemetry = "*"
