[package]
name = "whynottao"
version = "0.1.0"
edition = "2021"
publish = false

[dependencies]
serde_json = "1"
http = "1"
image = { version = "0.25", default-features = false, features = ["png", "ico", "jpeg"] }
dpi = "0.1"
napi = "3"
napi-derive = "3"
tao = "0.34"
wry = "0.53"
muda = { version = "0.17", default-features = false }
rfd = { version = "0.15", default-features = false }
