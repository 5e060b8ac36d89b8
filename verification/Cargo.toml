[package]
name = "comtrade_rust"
version = "0.1.0"
edition = "2021"
publish = false

[dependencies]
comtrade = "*"
console_error_panic_hook = "0.1"
encoding_rs = "0.8"
serde = { version = "1", features = ["derive"] }
serde-wasm-bindgen = "*"
wasm-bindgen = "0.2"
