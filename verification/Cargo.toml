[package]
name = "zed_web"
version = "0.1.0"
edition = "2021"
publish = false

[dependencies]
anyhow = "1"
async-tungstenite = "*"
bytes = "1"
clap = { version = "4", features = ["derive"] }
console_error_panic_hook = "0.1"
console_log = "*"
env_logger = "*"
futures = "0.3"
js-sys = "0.3"
log = "0.4"
parking_lot = "0.12"
prost = "*"
semver = "1"
serde = { version = "1", features = ["derive"] }
serde_json = "1"
smol = "2"
tokio = { version = "1", features = ["full"] }
tokio-tungstenite = "*"
wasm-bindgen = "0.2"
web-sys = { version = "0.3", features = ["BinaryType", "CloseEvent", "Document", "ErrorEvent", "Event", "EventTarget", "KeyboardEvent", "MessageEvent", "MouseEvent", "WebSocket", "Window", "console"] }
