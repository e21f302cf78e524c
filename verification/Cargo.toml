[package]
name = "ncmdec"
version = "0.1.0"
edition = "2021"
publish = false

[dependencies]
aes = "*"
ecb = { version = "*", features = ["alloc", "block-padding"] }
base64ct = { version = "*", features = ["alloc"] }
serde_json = "*"
anyhow = "*"
clap = { version = "*", features = ["derive"] }
clap-verbosity-flag = "*"
indicatif = "*"
tokio = { version = "*", features = ["full"] }
tracing = "*"
tracing-subscriber = "*"
