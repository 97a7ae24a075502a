[package]
name = "irmaseal_wasm"
version = "0.1.0"
edition = "2021"
publish = false

[dependencies]
rand = "0.7"
serde_json = "1"
js-sys = "0.3"
wasm-bindgen = "0.2"
