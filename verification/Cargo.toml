[package]
name = "gaia_core"
version = "0.1.0"
edition = "2021"
publish = false

[dependencies]
base64 = "=0.22.1"
dioxus = "0.6"
fs-more = "=0.8.1"
image = { version = "=0.25.10", default-features = false, features = ["bmp", "dds", "exr", "ff", "gif", "hdr", "ico", "jpeg", "png", "pnm", "qoi", "tga", "tiff", "webp"] }
rand = "=0.9.5"
serde = { version = "=1.0.229", features = ["derive"] }
serde-wasm-bindgen = "=0.6.5"
toml = "=1.1.8"
uuid = { version = "=1.29.0", features = ["v4", "serde"] }
wasm-bindgen = "=0.2.129"
