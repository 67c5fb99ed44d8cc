[package]
name = "proxy_gateway"
version = "0.1.0"
edition = "2021"
publish = false

[dependencies]
sha2 = "0.10"
md-5 = "0.10"
aes-gcm = "0.10"
rand = "0.8"
chrono = "0.4"
uuid = "1"
tokio = { version = "1", features = ["full"] }
tokio-rustls = "0.24"
webpki-roots = "0.25"
tokio-tungstenite = "0.20"
tungstenite = "0.20"
futures-util = "0.3"
async-trait = "0.1"
hyper = { version = "0.14", features = ["server", "http1", "tcp"] }
url = "2"
urlencoding = "2"
serde = { version = "1", features = ["derive"] }
serde_yaml = "0.9"
