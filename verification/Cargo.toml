[package]
name = "qwen_studio"
version = "2.2.3"
edition = "2021"
publish = false

[dependencies]
url = "=2.5.8"
serde = { version = "=1.0.229", features = ["derive"] }
serde_json = "=1.0.154"
log = "=0.4.35"
base64 = "=0.22.1"
open = "=5.4.5"
tokio = { version = "=1.54.1", features = ["time", "rt", "sync", "macros"] }
image = { version = "=0.25.10", default-features = false, features = ["bmp", "dds", "exr", "ff", "gif", "hdr", "ico", "jpeg", "png", "pnm", "qoi", "tga", "tiff", "webp"] }
