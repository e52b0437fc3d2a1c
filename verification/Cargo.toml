[package]
name = "mnist_core"
version = "0.1.0"
edition = "2021"
publish = false

[dependencies]
rand = "0.8"
ndarray = "0.15"
serde = { version = "1", features = ["derive"] }
serde_derive = "1"
serde_json = "1"
csv = "1"
dotenv = "0.15"
axum = "0.6"
tokio = { version = "1", features = ["rt-multi-thread", "macros", "time", "sync", "net"] }
tower-http = { version = "0.4", features = ["cors"] }
futures = "0.3"
