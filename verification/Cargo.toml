[package]
name = "klistra"
version = "0.1.0"
edition = "2021"
publish = false

[dependencies]
aws-sdk-s3 = "*"
chrono = "*"
clap = { version = "*", features = ["derive"] }
config = { version = "*", default-features = false, features = ["toml"] }
dirs = "*"
pulldown-cmark = { version = "*", default-features = false, features = ["html"] }
serde = { version = "*", features = ["derive"] }
tokio = { version = "*", features = ["fs", "macros", "rt-multi-thread"] }
uuid = { version = "*", features = ["v4"] }
