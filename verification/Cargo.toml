[package]
name = "spacenav_proxy"
version = "0.1.0"
edition = "2021"
publish = false

[dependencies]
futures-util = "0.3"
rand = "0.8"
serde_json = "1"
tokio = { version = "1", features = ["macros", "rt-multi-thread"] }
warp = { version = "0.3", features = ["tls"] }
