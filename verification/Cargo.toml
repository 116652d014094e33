[package]
name = "noemafeed"
version = "0.1.0"
edition = "2021"
publish = false

[dependencies]
base64 = "0.21"
oxigraph = { version = "0.4", default-features = false }
serde = { version = "1", features = ["derive"] }
serde_json = "1"
wasm-bindgen = { version = "0.2", features = ["serde-serialize"] }
