[package]
name = "outclash_lifecycle"
version = "0.1.0"
edition = "2021"
publish = false

[dependencies]
url = "2"
percent-encoding = "2"
tokio = { version = "1", features = ["rt", "rt-multi-thread", "time", "net"] }
parking_lot = "0.12"
once_cell = "1"
scopeguard = "1"
anyhow = "1"
log = "0.4"
serde_json = "1"
serde_yaml = "0.9"
serde_yaml_ng = "*"
libc = "0.2"
winapi = { version = "0.3", features = ["winuser", "windef"] }
deelevate = "*"
