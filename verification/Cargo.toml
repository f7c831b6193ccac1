[package]
name = "texlab"
version = "0.1.0"
edition = "2021"
publish = false

[dependencies]
rowan = "=0.15.19"
rustc-hash = "=1.1.0"
pathdiff = "=0.2.3"
tempfile = "=3.27.0"
versions = "=8.0.1"
log = "=0.4.35"
serde = { version = "=1.0.229", features = ["derive"] }
serde_json = "=1.0.154"
dirs = "=7.0.0"
url = "2"
line-index = "*"
