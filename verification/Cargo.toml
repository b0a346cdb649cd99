[package]
name = "fantoccini"
version = "0.1.0"
edition = "2021"
publish = false

[dependencies]
base64 = "=0.22.1"
cookie = { version = "=0.18.2", features = ["percent-encode"] }
futures-core = "=0.3.34"
futures-util = "=0.3.34"
http = "=1.5.0"
http-body-util = "=0.1.5"
hyper = { version = "=1.12.0", features = ["client", "http1"] }
hyper-rustls = { version = "=0.27.10", default-features = false, features = ["http1", "ring", "native-tokio", "tls12"] }
hyper-tls = "=0.6.0"
hyper-util = { version = "=0.1.21", features = ["client-legacy", "http1", "tokio"] }
mime = "=0.3.17"
serde = { version = "=1.0.229", features = ["derive"] }
serde_json = "=1.0.154"
time = "=0.3.55"
tokio = { version = "=1.54.1", features = ["rt", "rt-multi-thread", "macros", "sync", "time"] }
url = "=2.5.8"
