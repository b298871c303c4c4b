[package]
name = "mesh"
version = "0.1.0"
edition = "2021"
publish = false

[dependencies]
egui = "=0.10.0"
egui_web = "=0.10.0"
epi = "=0.10.0"
rand = "=0.8.8"
serde = { version = "1", features = ["derive"] }
serde_json = "1"
syntect = "=4.6.0"
wasm-bindgen = "0.2"
web-sys = { version = "0.3", features = ["Window"] }
