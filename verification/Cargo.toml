[package]
name = "harbor"
version = "0.1.0"
edition = "2021"
publish = false

[dependencies]
urlencoding = "*"
clap = { version = "*", features = ["derive"] }
serde = { version = "*", features = ["derive"] }
serde_json = "*"
tokio = { version = "*", features = ["macros", "rt-multi-thread"] }
async-trait = "*"
anyhow = "*"
tracing = "*"
