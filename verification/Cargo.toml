[package]
name = "skyboxer"
version = "0.1.0"
edition = "2021"
publish = false

[dependencies]
image = { version = "0.25", default-features = false, features = ["png", "jpeg"] }
png = "0.17"
mime_guess = "2"
tokio = { version = "1", features = ["rt-multi-thread", "macros", "net", "fs"] }
hyper = { version = "1", features = ["server", "http1"] }
hyper-util = { version = "0.1", features = ["tokio"] }
http-body-util = "0.1"
wasm-bindgen = "0.2"
