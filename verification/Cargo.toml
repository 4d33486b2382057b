[package]
name = "revfeed"
version = "0.1.0"
edition = "2021"
publish = false

[dependencies]
quick-xml = "0.30"
anyhow = "1"
csv = "1"
chrono = "0.4"
tokio = { version = "1", features = ["rt-multi-thread", "macros", "fs"] }
aws-config = "*"
aws-sdk-s3 = "*"
