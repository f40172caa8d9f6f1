[package]
name = "timeup"
version = "0.1.0"
edition = "2021"
publish = false

[dependencies]
serde = { version = "1", features = ["derive"] }
serde_json = "1"
toml = "0.7"
lazy_static = "1"
window-shadows = "0.2"
window-vibrancy = "0.4"
yew = { version = "0.20", features = ["csr"] }
wasm-bindgen = "0.2"
wasm-bindgen-futures = "0.4"
web-sys = { version = "0.3", features = ["Window", "MediaQueryList", "EventTarget", "console"] }
serde-wasm-bindgen = "0.4"
