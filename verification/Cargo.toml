[package]
name = "vst3_skeleton"
version = "0.1.0"
edition = "2021"
publish = false

[dependencies]
vst3 = "0.1"
serde_json = "1"
windows = { version = "0.52", features = ["Win32_Foundation"] }
webview2-com = "0.28"
wry = "0.35"
