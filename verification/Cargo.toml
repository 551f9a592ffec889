[package]
name = "badcqbot"
version = "0.1.0"
edition = "2021"
publish = false

[dependencies]
chrono = "=0.4.45"
json = "=0.12.4"
infer = "=0.22.0"
log = "=0.4.34"
pretty_env_logger = "=0.5.0"
config = "=0.15.27"
futures-util = "=0.3.34"
tokio = { version = "=1.54.1", features = ["full"] }
tokio-tungstenite = "=0.30.0"
reqwest = { version = "=0.13.5", default-features = false, features = ["native-tls"] }
