[package]
name = "fcgi_bridge"
version = "0.1.0"
edition = "2021"
publish = false

[dependencies]
axum = "*"
bytes = "*"
fastcgi-server = "*"
futures-util = "*"
http = "*"
tokio = { version = "*", features = ["net", "rt", "rt-multi-thread", "sync", "io-util", "macros"] }
tokio-stream = { version = "*", features = ["sync"] }
tokio-util = { version = "*", features = ["codec", "compat"] }
tower = "*"
tracing = "*"
