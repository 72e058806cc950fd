[package]
name = "ubike_setter"
version = "0.1.0"
edition = "2021"
publish = false

[dependencies]
http = "1"
serde = { version = "1", features = ["derive"] }
serde_json = "1"
tracing = "0.1"
tracing-subscriber = "0.3"
waki = "*"
wit-bindgen = "*"
