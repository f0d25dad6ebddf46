[package]
name = "demo_router"
version = "0.1.0"
edition = "2021"
publish = false

[dependencies]
base64 = "0.13"
axum = "0.6"
tokio = { version = "1", features = ["macros", "rt-multi-thread", "signal"] }

[dev-dependencies]
serde_json = "1"
