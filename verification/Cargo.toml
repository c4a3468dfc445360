[package]
name = "hobby"
version = "0.1.0"
edition = "2021"
publish = false

[dependencies]
age = "*"
anyhow = "*"
clap = { version = "*", features = ["derive"] }
homedir = "*"
md5 = "*"
serde = { version = "*", features = ["derive"] }
serde_yaml = "*"
ssh2 = "*"
tracing = "*"
tracing-subscriber = "*"
