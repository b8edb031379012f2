[package]
name = "udis"
version = "0.1.0"
edition = "2021"
publish = false

[dependencies]
local-ip-address = "*"
log = "0.4"
serde = { version = "1", features = ["derive"] }
serde_json = "1"
socket2 = "*"
thiserror = "*"
tokio = { version = "1", features = ["macros", "net", "rt", "sync"] }
