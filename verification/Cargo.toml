[package]
name = "absolutelyright"
version = "0.1.0"
edition = "2021"
publish = false

[dependencies]
axum = "0.7"
chrono = "0.4"
serde = { version = "1", features = ["derive"] }
tokio = { version = "1", features = ["macros", "rt-multi-thread", "net"] }
tokio-rusqlite = "0.5"
tower-http = { version = "0.5", features = ["fs"] }
