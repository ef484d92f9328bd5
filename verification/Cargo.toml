[package]
name = "obscura_webgl"
version = "0.1.0"
edition = "2021"
publish = false

[dependencies]
glsl = "7"
libm = "0.2"
brotli = "8"
log = "0.4"
parking_lot = "0.12"
futures = "0.3"
http = "1"
http-body-util = "0.1"
hyper = { version = "1", features = ["client", "http1", "http2"] }
hyper-util = { version = "0.1", features = ["client-legacy", "client-proxy", "tokio", "http1", "http2"] }
tokio = { version = "1", features = ["net", "rt", "io-util"] }
tower = { version = "0.5", features = ["util"] }
btls = "*"
tokio-btls = "*"
