[package]
name = "sqs_mock"
version = "0.1.0"
edition = "2021"
publish = false

[dependencies]
uuid = { version = "1", features = ["v4"] }
md5 = "0.7"
regex = "1"
serde_urlencoded = "0.7"
serde = { version = "1", features = ["derive"] }
quick-xml = { version = "*", features = ["serialize"] }
actix-web = "4"
tokio = { version = "1", features = ["sync", "time", "macros", "rt-multi-thread"] }
