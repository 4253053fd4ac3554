[package]
name = "showerrooms"
version = "0.1.0"
edition = "2021"
publish = false

[dependencies]
tokio = { version = "1", features = ["sync", "macros", "rt-multi-thread", "net", "time"] }
tokio-stream = "0.1"
axum = "0.6"
serde = { version = "1", features = ["derive"] }
tower-http = { version = "0.4", features = ["cors"] }
