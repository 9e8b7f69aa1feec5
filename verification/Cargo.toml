[package]
name = "winit-test"
version = "0.1.0"
edition = "2021"
publish = false

[dependencies]
owo-colors = "3.5.0"
wasm-bindgen-test = "0.3"
web-time = "0.2.0"
winit = { version = "0.28.6", default-features = false, features = ["x11"] }
