[package]
name = "dlna_dmr"
version = "0.1.0"
edition = "2021"
publish = false

[dependencies]
quick-xml = "*"
regex = "*"
uuid = { version = "*", features = ["v4"] }
chrono = "*"
axum = "*"
tokio = { version = "*", features = ["macros", "net", "rt-multi-thread", "signal", "time"] }
socket2 = "*"
log = "*"
env_logger = "*"
local-ip-address = "*"
serde = { version = "*", features = ["derive"] }
toml = "*"
