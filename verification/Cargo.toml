[package]
name = "page_server"
version = "0.1.0"
edition = "2021"
publish = false

[dependencies]
axum = { version = "0.8", features = ["macros"] }
env_logger = "0.11"
handlebars = { version = "6", features = ["dir_source"] }
log = "0.4"
mime = "0.3"
parking_lot = "0.12"
serde_json = "1"
tokio = { version = "1", features = ["macros", "rt-multi-thread", "net"] }
