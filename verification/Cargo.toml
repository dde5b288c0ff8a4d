[package]
name = "vrchat_chat_bridge"
version = "0.1.0"
edition = "2021"
publish = false

[dependencies]
anyhow = "*"
serde = { version = "*", features = ["derive"] }
serde_json = "*"
tokio = { version = "*", features = ["full"] }
vrchat_osc = "*"
slint = { version = "*", default-features = false, features = ["std", "compat-1-2"] }
