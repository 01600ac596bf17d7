[package]
name = "pager"
version = "0.1.0"
edition = "2021"
publish = false

[dependencies]
hex = "0.4"
rand = "0.8"
anyhow = "1"
log = "0.4"
parking_lot = "0.12"
serde = { version = "1", features = ["derive"] }
serde_json = "1"
thiserror = "1"
libc = "0.2"
tokio = { version = "1", default-features = false, features = ["rt-multi-thread", "net", "io-util", "time"] }
reqwest = { version = "0.12", default-features = false, features = ["blocking", "json"] }
local-ip-address = "*"
userfaultfd = "*"

[dev-dependencies]
bincode = "1.3"
