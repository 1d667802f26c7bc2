[package]
name = "line_webhook"
version = "0.1.0"
edition = "2021"
publish = false

[dependencies]
base64 = "0.22"
bytes = "1"
config = { version = "0.14", default-features = false, features = ["toml"] }
env_logger = "0.11"
hmac = "0.12"
log = "0.4"
serde_json = "1"
sha2 = "0.10"
tokio = { version = "1", features = ["macros", "rt-multi-thread"] }
warp = "0.3"
