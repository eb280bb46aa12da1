[package]
name = "middleman"
version = "0.1.0"
edition = "2021"
publish = false

[dependencies]
bytes = "1"
http = "1"
httparse = "1"
hyper = { version = "1", features = ["client", "server", "http1"] }
http-body-util = "0.1"
hyper-util = { version = "0.1", features = ["tokio"] }
tokio = { version = "1", features = ["full"] }
native-tls = "0.2"
tokio-native-tls = "0.3"
tokio-rustls = { version = "0.26", default-features = false, features = ["ring"] }
rustls-pemfile = "2"
clap = { version = "4", features = ["derive"] }
serde = { version = "1", features = ["derive"] }
toml = "0.8"
hickory-resolver = "0.24"
