[package]
name = "jarvis"
version = "0.1.0"
edition = "2021"
publish = false

[dependencies]
log = "*"
serde = { version = "*", features = ["derive"] }
serde_json = "*"
serde-wasm-bindgen = "*"
uuid = { version = "*", features = ["v4"] }
wasm-bindgen = "*"
wasm-bindgen-futures = "*"
js-sys = "*"
web-sys = { version = "*", features = ["AudioContext", "Headers", "MediaDevices", "MediaStream", "MediaStreamConstraints", "MediaStreamTrack", "Navigator", "Request", "RequestInit", "Response", "Storage", "Window"] }

[dev-dependencies]
serde_json = "*"
