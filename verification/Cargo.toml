[package]
name = "did_governance"
version = "0.1.0"
edition = "2021"
publish = false

[dependencies]
bcs = "0.1.6"
tokio = { version = "1", default-features = false, features = ["sync"] }
wasm-bindgen = "0.2"
js-sys = "0.3"
