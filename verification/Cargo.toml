[package]
name = "gtfs_rt"
version = "0.1.0"
edition = "2021"
publish = false

[dependencies]
csv = "1"
zip = { version = "2", default-features = false, features = ["deflate"] }
serde = { version = "1", features = ["derive"] }
serde_json = "1"
wasm-bindgen = "0.2"
