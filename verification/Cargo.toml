[package]
name = "proxy_launcher"
version = "0.1.0"
edition = "2021"
publish = false

[dependencies]
anyhow = "*"
clap = { version = "*", features = ["derive"] }
p256 = { version = "*", features = ["pem"] }
tracing = "*"
tracing-subscriber = { version = "*", features = ["json"] }
url = "*"

[dev-dependencies]
hex = "*"
