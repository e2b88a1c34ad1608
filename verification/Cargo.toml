[package]
name = "zest"
version = "0.1.0"
edition = "2021"
publish = false

[dependencies]
lru = "*"
ipnet = "*"
urlencoding = "*"
mime = "*"
mime_guess = "*"
chrono = "*"
tokio = { version = "*", features = ["full"] }
serde = { version = "*", features = ["derive"] }
serde_yml = "*"
clap = { version = "*", features = ["derive"] }
signal-hook = "*"
log = "*"
log4rs = "*"
anyhow = "*"
async-mutex = "*"
async-rwlock = "*"
