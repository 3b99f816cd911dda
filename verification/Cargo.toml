[package]
name = "char_sheet"
version = "0.1.0"
edition = "2021"
publish = false

[dependencies]
lazy-regex = "=3.6.2"
serde = { version = "=1.0.229", features = ["derive"] }
serde_json = "=1.0.154"
leptos = { version = "=0.6.15", features = ["csr"] }
reqwest = { version = "=0.11.27", default-features = false, features = ["json"] }
comrak = { version = "=0.57.0", default-features = false }
uuid = { version = "=1.29.0", features = ["v4"] }
web-sys = { version = "=0.3.106", features = ["Storage", "Window", "Event", "SubmitEvent"] }
wasm-bindgen = "=0.2.129"
wasm-bindgen-futures = "=0.4.79"
serde-wasm-bindgen = "=0.6.5"
console_log = "=1.1.0"
log = "=0.4.34"
console_error_panic_hook = "=0.1.7"
