[package]
name = "system_info"
version = "0.1.0"
edition = "2021"
publish = false

[dependencies]
axum = "*"
clap = { version = "*", features = ["derive"] }
serde = { version = "*", features = ["derive"] }
sysinfo = "*"
tokio = { version = "*", features = ["full"] }
