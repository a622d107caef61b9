[package]
name = "aws_ip_ranges"
version = "0.1.0"
edition = "2021"
publish = false

[dependencies]
ipnet = "2"
iprange = "0.6"
lazy_static = "1"
serde = { version = "1", features = ["derive"] }
uuid = { version = "1", features = ["v4"] }
worker = "*"

[dev-dependencies]
serde_json = "1"
