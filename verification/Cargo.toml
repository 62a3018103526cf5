[package]
name = "llm_osd"
version = "0.1.0"
edition = "2021"
publish = false

[dependencies]
base64 = "*"
anyhow = "*"
libc = "*"
clap = { version = "*", features = ["derive"] }
tokio = { version = "*", features = ["full"] }
