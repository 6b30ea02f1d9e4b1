[package]
name = "forest_explorer"
version = "0.1.0"
edition = "2021"
publish = false

[dependencies]
serde_json = "1"
mime_guess = "2"
log = "0.4"
leptos = "0.6"
leptos_meta = "0.6"
leptos_axum = { version = "0.6", default-features = false }
axum = { version = "0.7", default-features = false }
reqwest = { version = "0.12", default-features = false, features = ["json"] }
worker = { version = "0.3", features = ["http", "axum"] }
wasm-bindgen = "0.2"
console_log = "1"
console_error_panic_hook = "0.1"
include_dir = "0.7"
tower-service = "0.3"
