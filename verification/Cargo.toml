[package]
name = "router_core"
version = "0.1.0"
edition = "2021"
publish = false

[dependencies]
rustc-hash = "=1.1.0"
base64 = "=0.22.1"
ring = "=0.17.14"
totp-rs = { version = "=5.7.2", features = ["gen_secret", "otpauth"] }
serde = { version = "=1.0.229", features = ["derive"] }
serde_json = "=1.0.154"
time = "=0.3.55"
uuid = { version = "=1.29.0", features = ["v4"] }
futures = "0.3"
