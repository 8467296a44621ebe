[package]
name = "webviewjs"
version = "0.1.0"
edition = "2021"
publish = false

[dependencies]
serde_json = "=1.0.154"
napi = "=3.15.0"
napi-derive = "=3.6.13"
tao = "=0.37.2"
wry = "=0.57.1"
