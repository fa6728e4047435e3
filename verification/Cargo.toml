[package]
name = "socket_harness"
version = "0.1.0"
edition = "2021"
publish = false

[dependencies]
js-sys = "*"
tokio = { version = "*", default-features = false, features = ["io-util", "macros"] }
wasm-bindgen = "*"
wasm-bindgen-futures = "*"
worker = "*"
