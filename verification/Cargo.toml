[package]
name = "tonic_ws_transport"
version = "0.1.0"
edition = "2021"
publish = false

[dependencies]
bytes = "1"
http = "1"
tungstenite = { version = "*", default-features = false }
tokio = { version = "1", default-features = false, features = ["sync", "io-util"] }
futures-util = { version = "0.3", default-features = false, features = ["sink", "std"] }
js-sys = "*"
wasm-bindgen = "*"
web-sys = { version = "*", features = ["WebSocket", "BinaryType", "MessageEvent"] }
