[package]
name = "softlight_agent"
version = "0.1.0"
edition = "2021"
publish = false

[dependencies]
anyhow = "*"
async-trait = "*"
base64 = "*"
chromiumoxide = { version = "*", features = ["tokio-runtime"], default-features = false }
chrono = "*"
clap = { version = "*", features = ["derive"] }
futures = "*"
serde = { version = "*", features = ["derive"] }
serde_json = "*"
serde_yaml = "*"
tokio = { version = "*", features = ["full"] }
