[package]
name = "drillbit"
version = "0.1.0"
edition = "2021"
publish = false

[dependencies]
anyhow = "1"
async-trait = "0.1"
blake3 = "1"
env_logger = "0.11"
fs-err = { version = "3", features = ["tokio"] }
log = "0.4"
rbx_cookie = "*"
relative-path = { version = "2", features = ["serde"] }
reqwest = { version = "0.12", features = ["json"] }
roblox-studio-utils = "*"
serde = { version = "1", features = ["derive"] }
tokio = { version = "1", features = ["macros", "rt-multi-thread", "fs"] }
toml = "*"
