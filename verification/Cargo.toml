[package]
name = "reactive_state"
version = "0.1.0"
edition = "2021"
publish = false

[dependencies]
crossbeam = "*"
futures-intrusive = "*"
wasm-bindgen-futures = "*"

[dev-dependencies]
futures = "0.3"
